//! LIST: rendering a directory, one long-format line per entry.
use vstd::prelude::*;
use vstd::string::StringExecFns;

use chrono::{Datelike, Timelike};

use crate::errors::ExecutionError;
use crate::executor::{result_matches, ExecutionResult, SpecOutcome};
use crate::numbers::{dec_chars, dec_u64_string};
use crate::paths::{join_path, spec_join};
use crate::sessionstate::{SessionState, StateModel, TransferPlan};
use crate::wire::write_all_bytes;

verus! {

/// What one directory entry looks like to the renderer: its base name,
/// its size in bytes, whether it lists as a directory, and its
/// modification time in seconds since the Unix epoch.
pub struct FileInfo {
    pub name: String,
    pub size: u64,
    pub is_dir: bool,
    pub mtime_secs: i64,
}

/// The entry as contracts see it.
pub ghost struct FileInfoModel {
    pub name: Seq<char>,
    pub size: u64,
    pub is_dir: bool,
    pub mtime_secs: i64,
}

impl View for FileInfo {
    type V = FileInfoModel;

    open spec fn view(&self) -> FileInfoModel {
        FileInfoModel {
            name: self.name@,
            size: self.size,
            is_dir: self.is_dir,
            mtime_secs: self.mtime_secs,
        }
    }
}

/// A calendar date and time of day, in the machine's local time zone.
#[derive(Clone, Copy, PartialEq, Eq, Structural, Debug)]
pub struct CivilTime {
    pub year: i32,
    pub month: u8,
    pub day: u8,
    pub hour: u8,
    pub minute: u8,
}

/// The ranges the calendar promises.
pub open spec fn civil_wf(c: CivilTime) -> bool {
    &&& -262145 < c.year < 262144
    &&& 1 <= c.month <= 12
    &&& 1 <= c.day <= 31
    &&& c.hour < 24
    &&& c.minute < 60
}

/// Relies on chrono's `DateTime::from_timestamp`, `with_timezone` and the
/// `Datelike`/`Timelike` accessors: an instant's local calendar fields,
/// with the documented ranges (months from 1 to 12, days from 1 to 31,
/// hours below 24, minutes below 60, years within chrono's span). An
/// instant outside chrono's range falls back to the epoch.
#[verifier::external_body]
fn local_civil_time(secs: i64) -> (r: CivilTime)
    ensures
        civil_wf(r),
{
    let dt = match chrono::DateTime::from_timestamp(secs, 0) {
        Some(utc) => utc.with_timezone(&chrono::Local),
        None => chrono::DateTime::<chrono::Local>::default(),
    };
    CivilTime {
        year: dt.year(),
        month: dt.month() as u8,
        day: dt.day() as u8,
        hour: dt.hour() as u8,
        minute: dt.minute() as u8,
    }
}

/// The English month abbreviation.
pub open spec fn spec_month_abbrev(m: u8) -> Seq<char> {
    if m == 1 {
        "Jan"@
    } else if m == 2 {
        "Feb"@
    } else if m == 3 {
        "Mar"@
    } else if m == 4 {
        "Apr"@
    } else if m == 5 {
        "May"@
    } else if m == 6 {
        "Jun"@
    } else if m == 7 {
        "Jul"@
    } else if m == 8 {
        "Aug"@
    } else if m == 9 {
        "Sep"@
    } else if m == 10 {
        "Oct"@
    } else if m == 11 {
        "Nov"@
    } else {
        "Dec"@
    }
}

/// Names the month.
pub fn month_abbrev(m: u8) -> (r: &'static str)
    requires
        1 <= m <= 12,
    ensures
        r@ == spec_month_abbrev(m),
{
    if m == 1 {
        "Jan"
    } else if m == 2 {
        "Feb"
    } else if m == 3 {
        "Mar"
    } else if m == 4 {
        "Apr"
    } else if m == 5 {
        "May"
    } else if m == 6 {
        "Jun"
    } else if m == 7 {
        "Jul"
    } else if m == 8 {
        "Aug"
    } else if m == 9 {
        "Sep"
    } else if m == 10 {
        "Oct"
    } else if m == 11 {
        "Nov"
    } else {
        "Dec"
    }
}

/// A number in two columns, padded with a space.
pub open spec fn spec_pad2_space(d: u8) -> Seq<char> {
    if d < 10 {
        " "@ + dec_chars(d as int)
    } else {
        dec_chars(d as int)
    }
}

/// A number in two columns, padded with a zero.
pub open spec fn spec_pad2_zero(d: u8) -> Seq<char> {
    if d < 10 {
        "0"@ + dec_chars(d as int)
    } else {
        dec_chars(d as int)
    }
}

/// A year in at least four digits, zero-padded, with a sign when it lies
/// before the common era.
pub open spec fn spec_year(y: i32) -> Seq<char> {
    if y < 0 {
        "-"@ + spec_year_magnitude(-y)
    } else {
        spec_year_magnitude(y as int)
    }
}

/// The digits of a non-negative year, zero-padded to four columns.
pub open spec fn spec_year_magnitude(y: int) -> Seq<char> {
    if y < 10 {
        "000"@ + dec_chars(y)
    } else if y < 100 {
        "00"@ + dec_chars(y)
    } else if y < 1000 {
        "0"@ + dec_chars(y)
    } else {
        dec_chars(y)
    }
}

/// A number in two columns.
fn pad2(d: u8, zero: bool) -> (r: String)
    ensures
        zero ==> r@ == spec_pad2_zero(d),
        !zero ==> r@ == spec_pad2_space(d),
{
    let digits = dec_u64_string(d as u64);
    if d < 10 {
        if zero {
            "0".to_owned().concat(digits.as_str())
        } else {
            " ".to_owned().concat(digits.as_str())
        }
    } else {
        digits
    }
}

/// A year, zero-padded to four columns.
fn render_year(y: i32) -> (r: String)
    requires
        -262145 < y < 262144,
    ensures
        r@ == spec_year(y),
{
    let (sign, mag): (bool, u32) = if y < 0 {
        (true, (-y) as u32)
    } else {
        (false, y as u32)
    };
    let digits = dec_u64_string(mag as u64);
    let padded = if mag < 10 {
        "000".to_owned().concat(digits.as_str())
    } else if mag < 100 {
        "00".to_owned().concat(digits.as_str())
    } else if mag < 1000 {
        "0".to_owned().concat(digits.as_str())
    } else {
        digits
    };
    if sign {
        "-".to_owned().concat(padded.as_str())
    } else {
        padded
    }
}

/// A modification time within the last six months.
pub open spec fn spec_recent(mtime_secs: i64, now_secs: i64) -> bool {
    mtime_secs + 180 * 86400 >= now_secs
}

/// The date column: month, space-padded day, then the time of day for a
/// recent entry and the year, behind a second space, for an old one.
pub open spec fn spec_date_string(c: CivilTime, recent: bool) -> Seq<char> {
    spec_month_abbrev(c.month) + " "@ + spec_pad2_space(c.day) + (if recent {
        " "@ + spec_pad2_zero(c.hour) + ":"@ + spec_pad2_zero(c.minute)
    } else {
        "  "@ + spec_year(c.year)
    })
}

/// Renders the date column from calendar fields.
pub fn render_date(c: CivilTime, recent: bool) -> (r: String)
    requires
        civil_wf(c),
    ensures
        r@ == spec_date_string(c, recent),
{
    let head = month_abbrev(c.month).to_owned().concat(" ").concat(pad2(c.day, false).as_str());
    if recent {
        head.concat(" ").concat(pad2(c.hour, true).as_str()).concat(":").concat(
            pad2(c.minute, true).as_str(),
        )
    } else {
        head.concat("  ").concat(render_year(c.year).as_str())
    }
}

/// Renders the date column of a modification time: the clock time for a
/// recent entry, the year for an old one. The calendar fields come from
/// the machine's local time zone.
pub fn format_date(mtime_secs: i64, now_secs: i64) -> (r: String)
    ensures
        exists|c: CivilTime|
            civil_wf(c) && r@ == spec_date_string(c, spec_recent(mtime_secs, now_secs)),
{
    let recent = (mtime_secs as i128) + 180 * 86400 >= (now_secs as i128);
    let civil = local_civil_time(mtime_secs);
    render_date(civil, recent)
}

/// One long-format directory line, apart from its line ending: the fixed
/// permission column, the size right-aligned in thirteen columns, the
/// date, then the name.
pub open spec fn spec_list_record(m: FileInfoModel, date: Seq<char>) -> Seq<char> {
    (if m.is_dir {
        "drwxr-xr-x 1 owner group"@
    } else {
        "-rw-r--r-- 1 owner group"@
    }) + " "@ + spec_pad13(m.size) + " "@ + date + " "@ + m.name
}

/// A size right-aligned in thirteen columns.
pub open spec fn spec_pad13(n: u64) -> Seq<char> {
    if dec_chars(n as int).len() < 13 {
        Seq::new((13 - dec_chars(n as int).len()) as nat, |i: int| ' ') + dec_chars(n as int)
    } else {
        dec_chars(n as int)
    }
}

/// The size column.
fn pad13(n: u64) -> (r: String)
    ensures
        r@ == spec_pad13(n),
{
    let digits = dec_u64_string(n);
    let len = digits.as_str().unicode_len();
    if len < 13 {
        let mut spaces: Vec<u8> = Vec::new();
        let mut i: usize = 0;
        while i < 13 - len
            invariant
                len < 13,
                i <= 13 - len,
                spaces@.len() == i,
                forall|k: int| 0 <= k < i ==> #[trigger] spaces@[k] == 32,
            decreases 13 - len - i,
        {
            spaces.push(32);
            i = i + 1;
        }
        proof {
            assert(crate::text::chars_of(spaces@) =~= Seq::new(
                (13 - dec_chars(n as int).len()) as nat,
                |k: int| ' ',
            ));
        }
        crate::text::ascii_bytes_to_string(spaces).concat(digits.as_str())
    } else {
        digits
    }
}

/// Renders one directory entry, dating it against the given moment.
pub fn create_list_record(info: &FileInfo, now_secs: i64) -> (r: String)
    ensures
        exists|c: CivilTime|
            civil_wf(c) && r@ == spec_list_record(
                info@,
                spec_date_string(c, spec_recent(info@.mtime_secs, now_secs)),
            ),
{
    let prefix: &'static str = if info.is_dir {
        "drwxr-xr-x 1 owner group"
    } else {
        "-rw-r--r-- 1 owner group"
    };
    let date = format_date(info.mtime_secs, now_secs);
    prefix.to_owned().concat(" ").concat(pad13(info.size).as_str()).concat(" ").concat(
        date.as_str(),
    ).concat(" ").concat(info.name.as_str())
}

/// A listing: every record, each closed by CRLF.
pub open spec fn spec_output(records: Seq<Seq<char>>) -> Seq<char>
    decreases records.len(),
{
    if records.len() == 0 {
        Seq::empty()
    } else {
        spec_output(records.drop_last()) + records.last() + "\r\n"@
    }
}

/// Joins rendered records into the listing sent down the data channel.
pub fn create_output(records: &Vec<String>) -> (r: String)
    ensures
        r@ == spec_output(records@.map_values(|s: String| s@)),
{
    let ghost recs = records@.map_values(|s: String| s@);
    let mut out = String::new();
    let mut i: usize = 0;
    while i < records.len()
        invariant
            i <= records@.len(),
            recs == records@.map_values(|s: String| s@),
            out@ == spec_output(recs.take(i as int)),
        decreases records@.len() - i,
    {
        out.append(records[i].as_str());
        out.append("\r\n");
        proof {
            assert(recs.take(i + 1).drop_last() =~= recs.take(i as int));
            assert(recs.take(i + 1).last() == recs[i as int]);
        }
        i = i + 1;
    }
    proof {
        assert(recs.take(recs.len() as int) =~= recs);
    }
    out
}

/// The directory LIST describes: the argument under the working
/// directory, or the working directory itself when no argument came.
pub open spec fn spec_list_target(m: StateModel, arg: Seq<char>) -> Seq<char> {
    if arg.len() == 0 {
        m.name_prefix
    } else {
        spec_join(m.name_prefix, arg)
    }
}

/// What LIST answers, given whether the probed target exists.
pub open spec fn spec_list(m: StateModel, arg: Seq<char>, target_exists: bool) -> SpecOutcome {
    if target_exists {
        SpecOutcome {
            status: 150,
            message: "Opening data connection."@,
            new_state: Some(
                StateModel {
                    data_transfer_func: Some(TransferPlan::List),
                    data_transfer_func_parameter: Some(spec_list_target(m, arg)),
                    ..m
                },
            ),
        }
    } else {
        SpecOutcome { status: 550, message: "File not found."@, new_state: None }
    }
}

/// The path LIST would read.
pub fn list_target(state: &SessionState, argument: &str) -> (r: String)
    requires
        state.wf(),
        argument.is_ascii(),
    ensures
        r@ == spec_list_target(state@, argument@),
{
    if argument.is_empty() {
        state.name_prefix.clone()
    } else {
        join_path(state.name_prefix.as_str(), argument)
    }
}

/// LIST plans the listing of an existing path; the caller has probed
/// whether the target exists.
pub fn list_command_executor(state: &SessionState, argument: &str, target_exists: bool) -> (r:
    Result<ExecutionResult, ExecutionError>)
    requires
        state.wf(),
        argument.is_ascii(),
    ensures
        r matches Ok(res) && result_matches(res, spec_list(state@, argument@, target_exists)),
{
    if !target_exists {
        return Ok(
            ExecutionResult { status: 550, message: "File not found.".to_owned(), new_state: None },
        );
    }
    let mut new_state = state.clone();
    new_state.data_transfer_func = Some(TransferPlan::List);
    new_state.data_transfer_func_parameter = Some(list_target(state, argument));
    Ok(
        ExecutionResult {
            status: 150,
            message: "Opening data connection.".to_owned(),
            new_state: Some(new_state),
        },
    )
}

/// Renders the entries the caller has read off the disk and streams the
/// listing down the data connection. The entries are absent when the
/// directory could not be read for want of permission.
pub fn data_transfer_func<R: std::io::Read, W: std::io::Write>(
    entries: Option<&Vec<FileInfo>>,
    now_secs: i64,
    _read_stream: Option<&mut R>,
    write_stream: Option<&mut W>,
) -> (r: (u16, String))
    ensures
        write_stream is None ==> r.0 == 425 && r.1@ == "No data connection was established."@,
        write_stream is Some && entries is None ==> r.0 == 451 && r.1@
            == "Error reading directory or file."@,
        write_stream is Some && entries is Some ==> (r.0 == 226 && r.1@ == "Transfer complete."@)
            || (r.0 == 426 && r.1@ == "Error while sending data."@),
{
    let stream = match write_stream {
        Some(stream) => stream,
        None => {
            return (425, "No data connection was established.".to_owned());
        },
    };
    let entries = match entries {
        Some(entries) => entries,
        None => {
            return (451, "Error reading directory or file.".to_owned());
        },
    };
    let mut records: Vec<String> = Vec::new();
    let mut i: usize = 0;
    while i < entries.len()
        decreases entries@.len() - i,
    {
        records.push(create_list_record(&entries[i], now_secs));
        i = i + 1;
    }
    let outbuf = create_output(&records);
    match write_all_bytes(stream, outbuf.as_str().as_bytes()) {
        Ok(()) => (226, "Transfer complete.".to_owned()),
        Err(_) => (426, "Error while sending data.".to_owned()),
    }
}

} // verus!
