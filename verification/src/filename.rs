//! The names of the files that payloads are stored in.
//!
//! A file name carries the UTC date and, depending on how much of the request
//! is folded in, the stream's name and the client's address.

use vstd::prelude::*;
use crate::date::{date_text, format_date, lemma_date_text_injective, utc_date, utc_date_of, CivilDate};
use crate::text::push_char;

verus! {

/// What stands for `c` in a file name: `_` for `.` and `:`, else `c` itself.
pub open spec fn sanitized_char(c: char) -> char {
    if c == '.' || c == ':' {
        '_'
    } else {
        c
    }
}

/// The address with every `.` and `:` replaced by `_`.
pub open spec fn sanitized(addr: Seq<char>) -> Seq<char> {
    addr.map_values(|c: char| sanitized_char(c))
}

/// The extension of every stored file.
pub open spec fn json_suffix() -> Seq<char> {
    seq!['.', 'j', 's', 'o', 'n']
}

/// `<name>-<date>-<address>.json`, the address sanitized.
pub open spec fn full_filename(name: Seq<char>, date: CivilDate, addr: Seq<char>) -> Seq<char> {
    name + seq!['-'] + date_text(date) + seq!['-'] + sanitized(addr) + json_suffix()
}

/// `<name>-<date>.json`.
pub open spec fn named_filename(name: Seq<char>, date: CivilDate) -> Seq<char> {
    name + seq!['-'] + date_text(date) + json_suffix()
}

/// `<date>.json`.
pub open spec fn dated_filename(date: CivilDate) -> Seq<char> {
    date_text(date) + json_suffix()
}

/// The directory, relative to the base directory, that stored files go to.
pub open spec fn data_dir() -> Seq<char> {
    seq!['d', 'a', 't', 'a']
}

/// Where the file `filename` is stored, relative to the base directory.
pub open spec fn data_path(filename: Seq<char>) -> Seq<char> {
    data_dir() + seq!['/'] + filename
}

/// Replaces every `.` and `:` of a client address by `_`, so that both IPv4
/// and IPv6 addresses can stand in a file name.
pub fn sanitize_address(addr: &str) -> (clean: String)
    ensures
        clean@ == sanitized(addr@),
{
    let mut clean = String::new();
    let chars = addr.chars();
    proof {
        vstd::string::axiom_spec_iter(addr);
    }
    for c in it: chars
        invariant
            it.seq() == addr@,
            clean@.len() == it.index(),
            forall|i: int| 0 <= i < it.index() ==> clean@[i] == sanitized_char(#[trigger] addr@[i]),
    {
        if c == '.' || c == ':' {
            push_char(&mut clean, '_');
        } else {
            push_char(&mut clean, c);
        }
    }
    assert(clean@ =~= sanitized(addr@));
    clean
}

fn push_json_suffix(text: &mut String)
    ensures
        final(text)@ == old(text)@ + json_suffix(),
{
    proof {
        reveal_strlit(".json");
    }
    text.append(".json");
    assert(".json"@ =~= json_suffix());
}

/// The file name that carries the stream's name, the date and the client's address.
pub fn build_full_filename(name: &str, date: &CivilDate, addr: &str) -> (file: String)
    requires
        date.wf(),
    ensures
        file@ == full_filename(name@, *date, addr@),
{
    let mut file = String::from_str(name);
    push_char(&mut file, '-');
    file.append(format_date(date).as_str());
    push_char(&mut file, '-');
    file.append(sanitize_address(addr).as_str());
    push_json_suffix(&mut file);
    file
}

/// The file name that carries the stream's name and the date.
pub fn build_named_filename(name: &str, date: &CivilDate) -> (file: String)
    requires
        date.wf(),
    ensures
        file@ == named_filename(name@, *date),
{
    let mut file = String::from_str(name);
    push_char(&mut file, '-');
    file.append(format_date(date).as_str());
    push_json_suffix(&mut file);
    file
}

/// The file name that carries the date alone.
pub fn build_dated_filename(date: &CivilDate) -> (file: String)
    requires
        date.wf(),
    ensures
        file@ == dated_filename(*date),
{
    let mut file = format_date(date);
    push_json_suffix(&mut file);
    file
}

/// The file name for a request of the client at `addr` to the stream `name`,
/// handled `seconds` seconds after the Unix epoch: `None` where that instant
/// has no date. The seconds are read as a signed 64-bit count, so a count
/// above `i64::MAX` wraps around to an instant before the epoch.
pub fn generate_filename(name: &str, addr: &str, seconds: u64) -> (file: Option<String>)
    ensures
        match utc_date_of(seconds as i64) {
            Some(date) => file matches Some(f) && f@ == full_filename(name@, date, addr@),
            None => file is None,
        },
{
    match utc_date(#[verifier::truncate] (seconds as i64)) {
        Some(date) => Some(build_full_filename(name, &date, addr)),
        None => None,
    }
}

/// Where the file `filename` is stored, relative to the base directory.
pub fn relative_path(filename: &str) -> (path: String)
    ensures
        path@ == data_path(filename@),
{
    proof {
        reveal_strlit("data");
    }
    let mut path = String::from_str("data");
    assert("data"@ =~= data_dir());
    push_char(&mut path, '/');
    path.append(filename);
    path
}

/// A text between a fixed beginning and a fixed end is determined by the whole.
proof fn lemma_middle_determined(before: Seq<char>, a: Seq<char>, b: Seq<char>, after: Seq<char>)
    requires
        before + a + after == before + b + after,
    ensures
        a == b,
{
    let whole_a = before + a + after;
    let whole_b = before + b + after;
    assert(whole_a.len() == whole_b.len());
    let from = before.len() as int;
    assert(whole_a.subrange(from, from + a.len()) =~= a);
    assert(whole_b.subrange(from, from + b.len()) =~= b);
}

/// Requests to one stream from one address on different dates are stored in
/// different files.
pub proof fn lemma_full_filename_separates_dates(
    name: Seq<char>,
    addr: Seq<char>,
    a: CivilDate,
    b: CivilDate,
)
    requires
        a.wf(),
        b.wf(),
        a != b,
    ensures
        full_filename(name, a, addr) != full_filename(name, b, addr),
        data_path(full_filename(name, a, addr)) != data_path(full_filename(name, b, addr)),
{
    let before = name + seq!['-'];
    let after = seq!['-'] + sanitized(addr) + json_suffix();
    assert(full_filename(name, a, addr) =~= before + date_text(a) + after);
    assert(full_filename(name, b, addr) =~= before + date_text(b) + after);
    if full_filename(name, a, addr) == full_filename(name, b, addr) {
        lemma_middle_determined(before, date_text(a), date_text(b), after);
        lemma_date_text_injective(a, b);
    }
    if data_path(full_filename(name, a, addr)) == data_path(full_filename(name, b, addr)) {
        lemma_data_path_injective(full_filename(name, a, addr), full_filename(name, b, addr));
    }
}

/// Requests to one stream on different dates are stored in different files,
/// where the file name carries name and date.
pub proof fn lemma_named_filename_separates_dates(name: Seq<char>, a: CivilDate, b: CivilDate)
    requires
        a.wf(),
        b.wf(),
        a != b,
    ensures
        named_filename(name, a) != named_filename(name, b),
        data_path(named_filename(name, a)) != data_path(named_filename(name, b)),
{
    let before = name + seq!['-'];
    if named_filename(name, a) == named_filename(name, b) {
        lemma_middle_determined(before, date_text(a), date_text(b), json_suffix());
        lemma_date_text_injective(a, b);
    }
    if data_path(named_filename(name, a)) == data_path(named_filename(name, b)) {
        lemma_data_path_injective(named_filename(name, a), named_filename(name, b));
    }
}

/// Requests on different dates are stored in different files, where the file
/// name carries the date alone.
pub proof fn lemma_dated_filename_separates_dates(a: CivilDate, b: CivilDate)
    requires
        a.wf(),
        b.wf(),
        a != b,
    ensures
        dated_filename(a) != dated_filename(b),
        data_path(dated_filename(a)) != data_path(dated_filename(b)),
{
    if dated_filename(a) == dated_filename(b) {
        assert(Seq::<char>::empty() + date_text(a) =~= date_text(a));
        assert(Seq::<char>::empty() + date_text(b) =~= date_text(b));
        lemma_middle_determined(Seq::empty(), date_text(a), date_text(b), json_suffix());
        lemma_date_text_injective(a, b);
    }
    if data_path(dated_filename(a)) == data_path(dated_filename(b)) {
        lemma_data_path_injective(dated_filename(a), dated_filename(b));
    }
}

/// Different file names are stored at different paths.
pub proof fn lemma_data_path_injective(a: Seq<char>, b: Seq<char>)
    requires
        data_path(a) == data_path(b),
    ensures
        a == b,
{
    let before = data_dir() + seq!['/'];
    assert(before + a + Seq::<char>::empty() =~= data_path(a));
    assert(before + b + Seq::<char>::empty() =~= data_path(b));
    lemma_middle_determined(before, a, b, Seq::empty());
}

} // verus!
