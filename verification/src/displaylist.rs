//! How the entries of a day are written out: as Markdown rows, each from a
//! line template, or as one JSON array.

use vstd::prelude::*;
use vstd::string::*;
use crate::bargs::{BArgs, BJournRunner};
use crate::dates::{
    day_text, formatted_day, formatted_moment, moment_text, parse_day, parse_moment, parsed_day,
    parsed_moment, Day, Moment,
};
use crate::db::{BItem, Entry};
use crate::scan::ResolvedArgs;
use crate::text::{replace_all, replace_text, same_text};

verus! {

/// The texts that a line template can ask for.
pub struct LineFields {
    pub quickid: String,
    pub bullet: String,
    pub date: String,
    pub added: String,
    pub yyyy: String,
    pub mm: String,
    pub dd: String,
    pub hour: String,
    pub minute: String,
    pub second: String,
}

/// The texts of [`LineFields`] as contracts see them.
pub struct LineTexts {
    pub quickid: Seq<char>,
    pub bullet: Seq<char>,
    pub date: Seq<char>,
    pub added: Seq<char>,
    pub yyyy: Seq<char>,
    pub mm: Seq<char>,
    pub dd: Seq<char>,
    pub hour: Seq<char>,
    pub minute: Seq<char>,
    pub second: Seq<char>,
}

impl View for LineFields {
    type V = LineTexts;

    open spec fn view(&self) -> LineTexts {
        LineTexts {
            quickid: self.quickid@,
            bullet: self.bullet@,
            date: self.date@,
            added: self.added@,
            yyyy: self.yyyy@,
            mm: self.mm@,
            dd: self.dd@,
            hour: self.hour@,
            minute: self.minute@,
            second: self.second@,
        }
    }
}

/// The template with its placeholders filled in, one kind after the other
/// in this order. A text that was filled in is itself searched for the
/// placeholders that come later.
pub open spec fn filled(template: Seq<char>, f: LineTexts) -> Seq<char> {
    let c = replace_all(template, "{quickid}"@, f.quickid);
    let c = replace_all(c, "{bullet}"@, f.bullet);
    let c = replace_all(c, "{date}"@, f.date);
    let c = replace_all(c, "{added}"@, f.added);
    let c = replace_all(c, "{yyyy}"@, f.yyyy);
    let c = replace_all(c, "{mm}"@, f.mm);
    let c = replace_all(c, "{dd}"@, f.dd);
    let c = replace_all(c, "{HH}"@, f.hour);
    let c = replace_all(c, "{MM}"@, f.minute);
    replace_all(c, "{SS}"@, f.second)
}

/// Fills the placeholders of `format` with `fields`.
pub fn fill_template(format: &str, fields: &LineFields) -> (r: String)
    ensures
        r@ == filled(format@, fields@),
{
    let c = replace_text(format, "{quickid}", fields.quickid.as_str());
    let c = replace_text(c.as_str(), "{bullet}", fields.bullet.as_str());
    let c = replace_text(c.as_str(), "{date}", fields.date.as_str());
    let c = replace_text(c.as_str(), "{added}", fields.added.as_str());
    let c = replace_text(c.as_str(), "{yyyy}", fields.yyyy.as_str());
    let c = replace_text(c.as_str(), "{mm}", fields.mm.as_str());
    let c = replace_text(c.as_str(), "{dd}", fields.dd.as_str());
    let c = replace_text(c.as_str(), "{HH}", fields.hour.as_str());
    let c = replace_text(c.as_str(), "{MM}", fields.minute.as_str());
    replace_text(c.as_str(), "{SS}", fields.second.as_str())
}

/// The dates of an entry as stored: the day it is listed under and the
/// moment it was added, if both can be read.
pub open spec fn entry_dates(e: Entry) -> Option<(Day, Moment)> {
    match (parsed_day(e.list_date, "%Y-%m-%d"@), parsed_moment(e.added, "%Y-%m-%d %H:%M:%S"@)) {
        (Some(day), Some(at)) => Some((day, at)),
        _ => None,
    }
}

/// The texts that a template can ask for, for the entry `e` whose dates are
/// `day` and `at`; nothing if one of the dates cannot be written.
pub open spec fn line_texts(e: Entry, day: Day, at: Moment) -> Option<LineTexts> {
    let date = formatted_day(day, "%Y-%m-%d"@);
    let added = formatted_moment(at, "%Y-%m-%d %H:%M:%S"@);
    let yyyy = formatted_moment(at, "%Y"@);
    let mm = formatted_moment(at, "%m"@);
    let dd = formatted_moment(at, "%d"@);
    let hour = formatted_moment(at, "%H"@);
    let minute = formatted_moment(at, "%M"@);
    let second = formatted_moment(at, "%S"@);
    if date is Some && added is Some && yyyy is Some && mm is Some && dd is Some && hour is Some
        && minute is Some && second is Some {
        Some(
            LineTexts {
                quickid: e.quickid,
                bullet: e.text,
                date: date->0,
                added: added->0,
                yyyy: yyyy->0,
                mm: mm->0,
                dd: dd->0,
                hour: hour->0,
                minute: minute->0,
                second: second->0,
            },
        )
    } else {
        None
    }
}

/// The line for the entry `e` under `template`; nothing if the dates of the
/// entry cannot be read or written.
pub open spec fn formatted_line(template: Seq<char>, e: Entry) -> Option<Seq<char>> {
    match entry_dates(e) {
        Some((day, at)) => match line_texts(e, day, at) {
            Some(texts) => Some(filled(template, texts)),
            None => None,
        },
        None => None,
    }
}

/// Gathers what a template can ask for from an entry and its dates.
pub fn line_fields(bullet: &BItem, day: Day, at: Moment) -> (r: Option<LineFields>)
    ensures
        r.is_some() == line_texts(bullet@, day, at).is_some(),
        r.is_some() ==> r.unwrap()@ == line_texts(bullet@, day, at).unwrap(),
{
    let date = day_text(day, "%Y-%m-%d");
    let added = moment_text(at, "%Y-%m-%d %H:%M:%S");
    let yyyy = moment_text(at, "%Y");
    let mm = moment_text(at, "%m");
    let dd = moment_text(at, "%d");
    let hour = moment_text(at, "%H");
    let minute = moment_text(at, "%M");
    let second = moment_text(at, "%S");
    match (date, added, yyyy, mm, dd, hour, minute, second) {
        (
            Some(date),
            Some(added),
            Some(yyyy),
            Some(mm),
            Some(dd),
            Some(hour),
            Some(minute),
            Some(second),
        ) => Some(
            LineFields {
                quickid: bullet.quickid.clone(),
                bullet: bullet.text.clone(),
                date,
                added,
                yyyy,
                mm,
                dd,
                hour,
                minute,
                second,
            },
        ),
        _ => None,
    }
}

/// Writes one entry under the line template `format`. The result is nothing
/// when the stored dates of the entry cannot be read.
pub fn format_line(format: &str, bullet: &BItem) -> (r: Option<String>)
    ensures
        r.deep_view() == formatted_line(format@, bullet@),
{
    let day = parse_day(bullet.list_date.as_str(), "%Y-%m-%d");
    let at = parse_moment(bullet.added.as_str(), "%Y-%m-%d %H:%M:%S");
    match (day, at) {
        (Some(day), Some(at)) => match line_fields(bullet, day, at) {
            Some(fields) => Some(fill_template(format, &fields)),
            None => None,
        },
        _ => None,
    }
}

/// Whether `format` asks for the plain row instead of a template.
pub open spec fn is_default(format: Seq<char>) -> bool {
    format == "{default}"@
}

/// The Markdown row of the entry `e`: a star and the text, or the line that
/// the template gives.
pub open spec fn md_row(e: Entry, format: Seq<char>) -> Option<Seq<char>> {
    if is_default(format) {
        Some("* "@ + e.text)
    } else {
        formatted_line(format, e)
    }
}

/// Whether `format` asks for the plain row instead of a template.
pub fn is_default_format(format: &str) -> (r: bool)
    ensures
        r == is_default(format@),
{
    same_text(format, "{default}")
}

/// The Markdown row of one entry, as it is written to a pipe or a file.
/// The result is nothing when a template is used and the stored dates of
/// the entry cannot be read.
pub fn displaylist_md_row(itm: &BItem, format: &str) -> (r: Option<String>)
    ensures
        r.deep_view() == md_row(itm@, format@),
{
    if is_default_format(format) {
        Some("* ".to_owned().concat(itm.text.as_str()))
    } else {
        format_line(format, itm)
    }
}

/// The JSON text that `serde_json` writes for an array of objects, each
/// given by its members: pairs of a key and a string.
pub uninterp spec fn json_text(rows: Seq<Seq<(Seq<char>, Seq<char>)>>) -> Seq<char>;

/// Builds a `serde_json::Value`, an array with one object for each row and
/// in it one string member for each pair (`serde_json::Map::insert`), and
/// writes it out in the compact form (`to_string`, from the value's
/// `Display`). Not proved: that the result is `json_text`, which is a name
/// for exactly this.
#[verifier::external_body]
fn json_rows_text(rows: &Vec<Vec<(String, String)>>) -> (r: String)
    ensures
        r@ == json_text(rows.deep_view()),
{
    let mut items = Vec::new();
    for row in rows {
        let mut object = serde_json::Map::new();
        for (key, value) in row {
            object.insert(key.clone(), serde_json::Value::String(value.clone()));
        }
        items.push(serde_json::Value::Object(object));
    }
    serde_json::Value::Array(items).to_string()
}

/// The members of the JSON object for the entry `e`.
pub open spec fn json_members(e: Entry) -> Seq<(Seq<char>, Seq<char>)> {
    seq![
        ("quickid"@, e.quickid),
        ("bullet"@, e.text),
        ("date"@, e.list_date),
        ("added"@, e.added),
    ]
}

/// The members of the JSON objects for the entries `list`, in their order.
pub open spec fn json_rows_of(list: Seq<BItem>) -> Seq<Seq<(Seq<char>, Seq<char>)>> {
    Seq::new(list.len(), |i: int| json_members(list[i]@))
}

/// The members of the JSON objects for the entries `list`.
pub fn json_rows(list: &Vec<BItem>) -> (rows: Vec<Vec<(String, String)>>)
    ensures
        rows.deep_view() == json_rows_of(list@),
{
    let mut rows: Vec<Vec<(String, String)>> = Vec::new();
    let mut k: usize = 0;
    while k < list.len()
        invariant
            k <= list.len(),
            rows.deep_view() == json_rows_of(list@.take(k as int)),
        decreases list.len() - k,
    {
        let bullet = &list[k];
        let mut row: Vec<(String, String)> = Vec::new();
        row.push(("quickid".to_owned(), bullet.quickid.clone()));
        row.push(("bullet".to_owned(), bullet.text.clone()));
        row.push(("date".to_owned(), bullet.list_date.clone()));
        row.push(("added".to_owned(), bullet.added.clone()));
        assert(row.deep_view() =~= json_members(bullet@));
        let ghost before = rows.deep_view();
        rows.push(row);
        assert(rows.deep_view() =~= before.push(json_members(bullet@)));
        k += 1;
    }
    rows
}

/// The entries `list` as one JSON array, in the compact form.
pub fn displaylist_json(list: &Vec<BItem>) -> (r: String)
    ensures
        r@ == json_text(json_rows_of(list@)),
{
    let rows = json_rows(list);
    json_rows_text(&rows)
}

/// The ways in which a list can be written out.
#[derive(Debug, Clone, Copy, PartialEq, Eq, Structural)]
pub enum OutputFormat {
    Markdown,
    Json,
    /// A name that stands for no way of writing.
    Unknown,
}

/// The way of writing that the name `name` stands for.
pub open spec fn output_of(name: Seq<char>) -> OutputFormat {
    if name == "md"@ || name == "markdown"@ {
        OutputFormat::Markdown
    } else if name == "json"@ {
        OutputFormat::Json
    } else {
        OutputFormat::Unknown
    }
}

/// The way of writing that the name `name` stands for.
pub fn output_format(name: &str) -> (r: OutputFormat)
    ensures
        r == output_of(name@),
{
    if same_text(name, "md") || same_text(name, "markdown") {
        OutputFormat::Markdown
    } else if same_text(name, "json") {
        OutputFormat::Json
    } else {
        OutputFormat::Unknown
    }
}

/// What a request to list asks for.
pub struct ListRequest {
    /// The name given with `--output`; `md` if none was given.
    pub output_name: String,
    /// What that name stands for.
    pub output: OutputFormat,
    /// The line template given with `--format`; `{default}` if none was
    /// given.
    pub line_format: String,
    /// The day to list: the text of the invocation, or today.
    pub date: String,
}

/// The value of the option `name` in `args`, or `fallback` if it was not
/// given.
pub open spec fn option_or(
    args: ResolvedArgs,
    name: Seq<char>,
    fallback: Seq<char>,
) -> Seq<char> {
    if args.flag_args.contains_key(name) {
        args.flag_args[name]
    } else {
        fallback
    }
}

/// What the resolved invocation `args` asks to be listed, and how. `today`
/// is the day to list when the invocation names none.
pub fn list_request(args: &BArgs, today: &str) -> (r: ListRequest)
    ensures
        r.output_name@ == option_or(args@, "output"@, "md"@),
        r.output == output_of(r.output_name@),
        r.line_format@ == option_or(args@, "format"@, "{default}"@),
        r.date@ == match args@.input {
            Some(day) => day,
            None => today@,
        },
{
    let output_name = match args.flag_arg("output") {
        Some(val) => val,
        None => "md".to_owned(),
    };
    let line_format = match args.flag_arg("format") {
        Some(val) => val,
        None => "{default}".to_owned(),
    };
    let date = match &args.input {
        Some(d) => d.clone(),
        None => today.to_owned(),
    };
    let output = output_format(output_name.as_str());
    ListRequest { output_name, output, line_format, date }
}

} // verus!
