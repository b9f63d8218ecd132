//! What the journal stores: its entries and their short identifiers.

use vstd::prelude::*;
use vstd::string::*;
use crate::text::to_chars;

verus! {

/// One entry of the journal, as it is stored.
#[derive(Debug)]
pub struct BItem {
    pub id: i32,
    /// The short identifier by which the entry is removed.
    pub quickid: String,
    /// When the entry was added: date and time.
    pub added: String,
    /// The day under which the entry is listed.
    pub list_date: String,
    pub text: String,
}

/// An entry as contracts see it.
pub struct Entry {
    pub id: int,
    pub quickid: Seq<char>,
    pub added: Seq<char>,
    pub list_date: Seq<char>,
    pub text: Seq<char>,
}

impl View for BItem {
    type V = Entry;

    open spec fn view(&self) -> Entry {
        Entry {
            id: self.id as int,
            quickid: self.quickid@,
            added: self.added@,
            list_date: self.list_date@,
            text: self.text@,
        }
    }
}

/// The characters that a short identifier is made of: the letters of the
/// English alphabet, small and capital, and the digits.
pub open spec fn is_quickid_char(c: char) -> bool {
    ||| 'a' <= c <= 'z'
    ||| 'A' <= c <= 'Z'
    ||| '0' <= c <= '9'
}

/// A short identifier has eight characters, each a letter or a digit.
pub open spec fn is_quickid(s: Seq<char>) -> bool {
    &&& s.len() == 8
    &&& forall|i: int| 0 <= i < s.len() ==> is_quickid_char(#[trigger] s[i])
}

/// Calls `nanoid::format` with the crate's default random source
/// (`nanoid::rngs::default`). Not proved: that the string it returns has
/// `size` characters, each of them one of `alphabet`. The `requires` leaves
/// out what `nanoid::format` refuses or never finishes on: an alphabet that
/// is empty or longer than 255, characters that take more than one byte,
/// and a size of zero.
#[verifier::external_body]
fn random_id(alphabet: &[char], size: usize) -> (id: String)
    requires
        1 <= alphabet@.len() <= 255,
        forall|i: int| 0 <= i < alphabet@.len() ==> (#[trigger] alphabet@[i] as u32) < 128,
        1 <= size <= usize::MAX / 8,
    ensures
        id@.len() == size,
        forall|i: int| 0 <= i < id@.len() ==> alphabet@.contains(#[trigger] id@[i]),
{
    nanoid::format(nanoid::rngs::default, alphabet, size)
}

/// A fresh short identifier, drawn at random.
pub fn new_quickid() -> (id: String)
    ensures
        is_quickid(id@),
{
    let letters = "abcdefghijklmnopqrstuvwxyzABCDEFGHIJKLMNOPQRSTUVWXYZ0123456789";
    let alphabet = to_chars(letters);
    proof {
        reveal_strlit("abcdefghijklmnopqrstuvwxyzABCDEFGHIJKLMNOPQRSTUVWXYZ0123456789");
    }
    random_id(alphabet.as_slice(), 8)
}

} // verus!
