//! Parsing of architecture decision records: the metadata block a decision
//! file carries (title, status, date, deciders, tags), read line by line
//! from its markdown text. The surrounding migration — walking a directory,
//! rendering new files — is plain file I/O and lives outside the library.

use vstd::prelude::*;
use vstd::string::{StrSliceExecFns, StringExecFns};

use crate::text::{
    ascii_lower, ascii_lower_of, spec_split_char, spec_starts_with, spec_trim, spec_trim_end_char,
    split_char, starts_with_str, trim, trim_end_char,
};

verus! {

/// Counters of one decision-record migration run.
#[derive(Debug, Clone, Copy, PartialEq, Eq, Structural)]
pub struct DecisionsMigrationReport {
    pub scanned: u32,
    pub created: u32,
    pub skipped: u32,
}

/// What a migration run is asked to do.
#[derive(Debug, Clone)]
pub struct MigrateDecisionsOptions {
    /// Directory holding the decision files, absolute or repo-relative.
    pub source_dir: String,
    /// Overwrite targets that already exist.
    pub force: bool,
    /// Count without writing.
    pub dry_run: bool,
}

/// One trailing carriage return removed, as a line ending of the form
/// `\r\n` leaves one on its segment.
pub open spec fn strip_one_cr(s: Seq<char>) -> Seq<char> {
    if s.len() > 0 && s.last() == '\r' {
        s.drop_last()
    } else {
        s
    }
}

/// Splitting produces at least one segment.
proof fn lemma_split_has_segment(s: Seq<char>, sep: char, cur: Seq<char>)
    ensures
        crate::text::split_acc(s, sep, cur).len() >= 1,
    decreases s.len(),
{
    if s.len() > 0 && s.first() == sep {
        lemma_split_has_segment(s.drop_first(), sep, Seq::empty());
    } else if s.len() > 0 {
        lemma_split_has_segment(s.drop_first(), sep, cur.push(s.first()));
    }
}

/// The lines of a text: one per newline-separated segment, each without
/// the carriage return a `\r\n` ending leaves, and without the empty
/// segment a final newline produces.
pub open spec fn spec_lines(raw: Seq<char>) -> Seq<Seq<char>> {
    let segs = spec_split_char(raw, '\n');
    let body = segs.take(segs.len() - 1).map_values(|s: Seq<char>| strip_one_cr(s));
    if segs.last().len() == 0 {
        body
    } else {
        body.push(segs.last())
    }
}

/// Removes one trailing carriage return.
fn strip_cr(seg: &String) -> (r: String)
    ensures
        r@ == strip_one_cr(seg@),
{
    let s = seg.as_str();
    let len = s.unicode_len();
    if len > 0 && s.get_char(len - 1) == '\r' {
        let r = s.substring_char(0, len - 1);
        proof {
            assert(r@ =~= seg@.drop_last());
        }
        r.to_owned()
    } else {
        seg.clone()
    }
}

/// Splits a text into its lines.
pub fn split_lines(raw: &str) -> (r: Vec<String>)
    ensures
        r.deep_view() == spec_lines(raw@),
{
    let segs = split_char(raw, '\n');
    let ghost sv = segs.deep_view();
    proof {
        lemma_split_has_segment(raw@, '\n', Seq::empty());
    }
    let n = segs.len() - 1;
    let mut out: Vec<String> = Vec::new();
    let mut i: usize = 0;
    while i < n
        invariant
            i <= n,
            n + 1 == sv.len(),
            sv == segs.deep_view(),
            n + 1 == segs@.len(),
            out.deep_view() =~= sv.take(i as int).map_values(|s: Seq<char>| strip_one_cr(s)),
        decreases n - i,
    {
        let ghost pre = out.deep_view();
        let stripped = strip_cr(&segs[i]);
        out.push(stripped);
        proof {
            assert(out.deep_view() =~= pre.push(strip_one_cr(sv[i as int])));
            assert(sv.take(i + 1).map_values(|s: Seq<char>| strip_one_cr(s)) =~= sv.take(
                i as int,
            ).map_values(|s: Seq<char>| strip_one_cr(s)).push(strip_one_cr(sv[i as int])));
        }
        i += 1;
    }
    proof {
        assert(sv.take(n as int) =~= sv.take(sv.len() - 1));
    }
    let last = &segs[n];
    if !last.as_str().is_empty() {
        let ghost pre = out.deep_view();
        out.push(last.clone());
        proof {
            assert(out.deep_view() =~= pre.push(sv.last()));
        }
    }
    out
}

/// The marker a metadata line starts with: the key in double asterisks,
/// colon inside.
pub open spec fn kv_prefix(key: Seq<char>) -> Seq<char> {
    "**"@ + key + ":**"@
}

/// The value of a `**Key:** value` line: what follows the marker, trimmed,
/// with trailing backslashes (markdown line breaks) removed — or nothing,
/// when the line does not carry the marker or the value is empty.
pub open spec fn spec_parse_kv(line: Seq<char>, key: Seq<char>) -> Option<Seq<char>> {
    if spec_starts_with(line, kv_prefix(key)) {
        let rest = spec_trim(
            spec_trim_end_char(spec_trim(line.skip(kv_prefix(key).len() as int)), '\\'),
        );
        if rest.len() == 0 {
            None
        } else {
            Some(rest)
        }
    } else {
        None
    }
}

/// Reads the value of a `**Key:** value` line.
pub fn parse_adr_kv(line: &str, key: &str) -> (r: Option<String>)
    ensures
        match r {
            Some(v) => spec_parse_kv(line@, key@) == Some(v@),
            None => spec_parse_kv(line@, key@) is None,
        },
{
    let mut prefix = "**".to_owned();
    prefix.append(key);
    prefix.append(":**");
    proof {
        assert(prefix@ == kv_prefix(key@));
    }
    if !starts_with_str(line, prefix.as_str()) {
        return None;
    }
    let plen = prefix.as_str().unicode_len();
    let llen = line.unicode_len();
    let rest = line.substring_char(plen, llen);
    proof {
        assert(rest@ =~= line@.skip(kv_prefix(key@).len() as int));
    }
    let t = trim(trim_end_char(trim(rest), '\\'));
    if t.is_empty() {
        None
    } else {
        Some(t.to_owned())
    }
}

/// The comma-separated entries of a value: each trimmed, empties dropped.
pub open spec fn spec_split_csv(value: Seq<char>) -> Seq<Seq<char>> {
    spec_split_char(value, ',').map_values(|s: Seq<char>| spec_trim(s)).filter(
        |s: Seq<char>| s.len() > 0,
    )
}

/// Splits a comma-separated value into its trimmed, nonempty entries.
pub fn split_csv(value: &str) -> (r: Vec<String>)
    ensures
        r.deep_view() == spec_split_csv(value@),
{
    let segs = split_char(value, ',');
    let ghost mapped = segs.deep_view().map_values(|s: Seq<char>| spec_trim(s));
    let n = segs.len();
    let mut out: Vec<String> = Vec::new();
    let mut i: usize = 0;
    proof {
        reveal(Seq::filter);
        assert(mapped.take(0) =~= Seq::<Seq<char>>::empty());
        assert(out.deep_view() =~= mapped.take(0).filter(|s: Seq<char>| s.len() > 0));
    }
    while i < n
        invariant
            i <= n,
            n == segs@.len(),
            n == segs.deep_view().len(),
            mapped == segs.deep_view().map_values(|s: Seq<char>| spec_trim(s)),
            out.deep_view() =~= mapped.take(i as int).filter(|s: Seq<char>| s.len() > 0),
        decreases n - i,
    {
        let t = trim(segs[i].as_str());
        let ghost pre = out.deep_view();
        proof {
            reveal(Seq::filter);
            assert(mapped.take(i + 1).drop_last() =~= mapped.take(i as int));
            assert(mapped.take(i + 1).last() == spec_trim(segs.deep_view()[i as int]));
        }
        if !t.is_empty() {
            out.push(t.to_owned());
            proof {
                assert(out.deep_view() =~= pre.push(spec_trim(segs.deep_view()[i as int])));
            }
        }
        i += 1;
    }
    proof {
        assert(mapped.take(n as int) =~= mapped);
    }
    out
}

/// The metadata state the line scan accumulates.
pub ghost struct AdrMeta {
    pub title: Option<Seq<char>>,
    pub status: Option<Seq<char>>,
    pub date: Option<Seq<char>>,
    pub deciders: Seq<Seq<char>>,
    pub tags: Seq<Seq<char>>,
}

/// The scan's starting state: nothing found yet.
pub open spec fn empty_meta() -> AdrMeta {
    AdrMeta { title: None, status: None, date: None, deciders: Seq::empty(), tags: Seq::empty() }
}

/// One line's effect on the metadata state, on the trimmed line: the first
/// `# ` heading becomes the title; the first `**Status:**` value is kept
/// lowercased; the first `**Date:**` value, the first nonempty
/// `**Deciders:**` list and the first nonempty `**Tags:**` list are kept as
/// written. A line sets at most one of status, date, deciders and tags.
pub open spec fn adr_step(m: AdrMeta, line: Seq<char>) -> AdrMeta {
    let t = spec_trim(line);
    let m1 = if m.title is None && spec_starts_with(t, "# "@) {
        AdrMeta { title: Some(spec_trim(t.skip(2))), ..m }
    } else {
        m
    };
    if m1.status is None && spec_parse_kv(t, "Status"@) is Some {
        AdrMeta { status: Some(ascii_lower_of(spec_parse_kv(t, "Status"@)->0)), ..m1 }
    } else if m1.date is None && spec_parse_kv(t, "Date"@) is Some {
        AdrMeta { date: spec_parse_kv(t, "Date"@), ..m1 }
    } else if m1.deciders.len() == 0 && spec_parse_kv(t, "Deciders"@) is Some {
        AdrMeta { deciders: spec_split_csv(spec_parse_kv(t, "Deciders"@)->0), ..m1 }
    } else if m1.tags.len() == 0 && spec_parse_kv(t, "Tags"@) is Some {
        AdrMeta { tags: spec_split_csv(spec_parse_kv(t, "Tags"@)->0), ..m1 }
    } else {
        m1
    }
}

/// The scan over all lines, left to right.
pub open spec fn adr_fold(lines: Seq<Seq<char>>, m: AdrMeta) -> AdrMeta
    decreases lines.len(),
{
    if lines.len() == 0 {
        m
    } else {
        adr_fold(lines.drop_first(), adr_step(m, lines.first()))
    }
}

/// The metadata of a decision record's text.
pub open spec fn spec_parse_adr(raw: Seq<char>) -> AdrMeta {
    adr_fold(spec_lines(raw), empty_meta())
}

/// The view of an optional string.
pub open spec fn view_opt(o: Option<String>) -> Option<Seq<char>> {
    match o {
        Some(s) => Some(s@),
        None => None,
    }
}

/// The exec counterpart of the scan state.
struct AdrState {
    title: Option<String>,
    status: Option<String>,
    date: Option<String>,
    deciders: Vec<String>,
    tags: Vec<String>,
}

impl AdrState {
    spec fn view(&self) -> AdrMeta {
        AdrMeta {
            title: view_opt(self.title),
            status: view_opt(self.status),
            date: view_opt(self.date),
            deciders: self.deciders.deep_view(),
            tags: self.tags.deep_view(),
        }
    }
}

/// Applies one line to the scan state.
fn adr_apply(st: &mut AdrState, line: &str)
    ensures
        final(st).view() == adr_step(old(st).view(), line@),
{
    let t = trim(line);
    if st.title.is_none() {
        if starts_with_str(t, "# ") {
            proof {
                reveal_strlit("# ");
            }
            let rest = t.substring_char(2, t.unicode_len());
            proof {
                assert(rest@ =~= spec_trim(line@).skip(2));
            }
            st.title = Some(trim(rest).to_owned());
        }
    }
    if st.status.is_none() {
        if let Some(v) = parse_adr_kv(t, "Status") {
            st.status = Some(ascii_lower(v.as_str()));
            return ;
        }
    }
    if st.date.is_none() {
        if let Some(v) = parse_adr_kv(t, "Date") {
            st.date = Some(v);
            return ;
        }
    }
    if st.deciders.is_empty() {
        if let Some(v) = parse_adr_kv(t, "Deciders") {
            st.deciders = split_csv(v.as_str());
            return ;
        }
    }
    if st.tags.is_empty() {
        if let Some(v) = parse_adr_kv(t, "Tags") {
            st.tags = split_csv(v.as_str());
            return ;
        }
    }
}

/// Reads a decision record's metadata from its markdown text: title,
/// status (lowercased), date, deciders and tags, each from the first line
/// that carries it.
pub fn parse_adr_metadata(raw: &str) -> (r: (
    Option<String>,
    Option<String>,
    Option<String>,
    Vec<String>,
    Vec<String>,
))
    ensures
        ({
            let m = spec_parse_adr(raw@);
            &&& view_opt(r.0) == m.title
            &&& view_opt(r.1) == m.status
            &&& view_opt(r.2) == m.date
            &&& r.3.deep_view() == m.deciders
            &&& r.4.deep_view() == m.tags
        }),
{
    let lines = split_lines(raw);
    let ghost lv = lines.deep_view();
    let mut st = AdrState {
        title: None,
        status: None,
        date: None,
        deciders: Vec::new(),
        tags: Vec::new(),
    };
    proof {
        assert(st.deciders.deep_view() =~= Seq::<Seq<char>>::empty());
        assert(st.tags.deep_view() =~= Seq::<Seq<char>>::empty());
        assert(st.view() == empty_meta());
        assert(lv.skip(0) =~= lv);
    }
    let n = lines.len();
    let mut i: usize = 0;
    while i < n
        invariant
            i <= n,
            n == lines@.len(),
            n == lv.len(),
            lv == lines.deep_view(),
            spec_parse_adr(raw@) == adr_fold(lv.skip(i as int), st.view()),
        decreases n - i,
    {
        proof {
            assert(lv.skip(i as int).drop_first() =~= lv.skip(i + 1));
            assert(lv.skip(i as int).first() == lv[i as int]);
        }
        adr_apply(&mut st, lines[i].as_str());
        i += 1;
    }
    proof {
        assert(lv.skip(n as int) =~= Seq::<Seq<char>>::empty());
    }
    (st.title, st.status, st.date, st.deciders, st.tags)
}

} // verus!
