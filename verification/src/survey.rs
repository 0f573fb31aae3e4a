//! Replay survey bookkeeping, the packet filters of the investigation tool,
//! and finding the latest game build.
use vstd::prelude::*;
use crate::rpc::str_eq;
use crate::text::{parse_unsigned, parse_unsigned_spec, split_char, split_pieces, truncate_string, truncated};

verus! {

/// The outcome of parsing one replay file.
pub enum SurveyResult {
    /// File name, date and time, packet count, invalid packet count, audits.
    Success((String, String, usize, usize, Vec<String>)),
    UnsupportedVersion(String),
    ParseFailure(String),
}

/// Tallies of a survey over many replay files. The tallies per version and
/// the audits per file are lists of entries with distinct keys.
pub struct SurveyResults {
    pub version_failures: usize,
    pub parse_failures: usize,
    pub successes: usize,
    pub successes_with_invalids: usize,
    pub total: usize,
    /// How often each unsupported version was seen.
    pub invalid_versions: Vec<(String, usize)>,
    /// Per file with audits: file name, date and time, audits.
    pub audits: Vec<(String, String, Vec<String>)>,
}

/// The counts add up: every file was a success, an unsupported version or a
/// parse failure; successes with invalid packets are successes; no more
/// files have audits than succeeded; the version tallies add up to the
/// version failures and name each version once.
pub open spec fn survey_consistent(r: SurveyResults) -> bool {
    &&& r.total == r.successes + r.version_failures + r.parse_failures
    &&& r.successes_with_invalids <= r.successes
    &&& r.audits@.len() <= r.successes
    &&& tally_sum(r.invalid_versions@) == r.version_failures
    &&& forall|a: int, b: int|
        0 <= a < b < r.invalid_versions@.len() ==> r.invalid_versions@[a].0@
            != r.invalid_versions@[b].0@
    &&& forall|a: int, b: int|
        0 <= a < b < r.audits@.len() ==> r.audits@[a].0@ != r.audits@[b].0@
}

/// The sum of the counts of a tally.
pub open spec fn tally_sum(t: Seq<(String, usize)>) -> int
    decreases t.len(),
{
    if t.len() == 0 {
        0
    } else {
        tally_sum(t.drop_last()) + t.last().1
    }
}

/// How often a version was counted.
pub open spec fn tally_count(t: Seq<(String, usize)>, key: Seq<char>) -> int
    decreases t.len(),
{
    if t.len() == 0 {
        0
    } else {
        tally_count(t.drop_last(), key) + if t.last().0@ == key {
            t.last().1 as int
        } else {
            0
        }
    }
}

proof fn lemma_tally_update(t: Seq<(String, usize)>, i: int, e: (String, usize), key: Seq<char>)
    requires
        0 <= i < t.len(),
    ensures
        tally_sum(t.update(i, e)) == tally_sum(t) - t[i].1 + e.1,
        tally_count(t.update(i, e), key) == tally_count(t, key) - (if t[i].0@ == key {
            t[i].1 as int
        } else {
            0
        }) + (if e.0@ == key {
            e.1 as int
        } else {
            0
        }),
    decreases t.len(),
{
    if i == t.len() - 1 {
        assert(t.update(i, e).drop_last() =~= t.drop_last());
    } else {
        lemma_tally_update(t.drop_last(), i, e, key);
        assert(t.update(i, e).drop_last() =~= t.drop_last().update(i, e));
    }
}

proof fn lemma_tally_entry_le_sum(t: Seq<(String, usize)>, i: int)
    requires
        0 <= i < t.len(),
    ensures
        t[i].1 <= tally_sum(t),
        tally_sum(t) >= 0,
    decreases t.len(),
{
    lemma_tally_nonneg(t.drop_last());
    if i < t.len() - 1 {
        lemma_tally_entry_le_sum(t.drop_last(), i);
        assert(t.drop_last()[i] == t[i]);
    }
}

proof fn lemma_tally_nonneg(t: Seq<(String, usize)>)
    ensures
        tally_sum(t) >= 0,
    decreases t.len(),
{
    if t.len() > 0 {
        lemma_tally_nonneg(t.drop_last());
    }
}

impl SurveyResults {
    pub fn empty() -> (r: Self)
        ensures
            r.total == 0 && r.successes == 0 && r.version_failures == 0 && r.parse_failures == 0
                && r.successes_with_invalids == 0,
            r.invalid_versions@.len() == 0,
            r.audits@.len() == 0,
            survey_consistent(r),
    {
        Self {
            version_failures: 0,
            parse_failures: 0,
            successes: 0,
            successes_with_invalids: 0,
            total: 0,
            invalid_versions: Vec::new(),
            audits: Vec::new(),
        }
    }

    /// Counts one more file: a success (with invalid packets if any, and its
    /// audits if it has some, replacing an earlier entry of the same file),
    /// an unsupported version (tallied per version) or a parse failure.
    pub fn add(&mut self, result: SurveyResult)
        requires
            old(self).total < usize::MAX,
            survey_consistent(*old(self)),
        ensures
            survey_consistent(*final(self)),
            final(self).total == old(self).total + 1,
            match result {
                SurveyResult::Success((name, date, _, ninvalid, audits)) => {
                    &&& final(self).successes == old(self).successes + 1
                    &&& final(self).successes_with_invalids == old(self).successes_with_invalids + (
                    if ninvalid > 0 {
                        1int
                    } else {
                        0int
                    })
                    &&& final(self).version_failures == old(self).version_failures
                    &&& final(self).parse_failures == old(self).parse_failures
                    &&& final(self).invalid_versions@ == old(self).invalid_versions@
                    &&& (audits@.len() == 0 ==> final(self).audits@ == old(self).audits@)
                    &&& (audits@.len() > 0 ==> exists|i: int|
                        #![trigger final(self).audits@[i]]
                        {
                            &&& 0 <= i <= old(self).audits@.len()
                            &&& (i < old(self).audits@.len() ==> old(self).audits@[i].0@ == name@)
                            &&& (i == old(self).audits@.len() ==> forall|j: int|
                                0 <= j < old(self).audits@.len() ==> #[trigger] old(self).audits@[j].0@ != name@)
                            &&& final(self).audits@.len() == (if i < old(self).audits@.len() {
                                old(self).audits@.len() as int
                            } else {
                                old(self).audits@.len() + 1int
                            })
                            &&& final(self).audits@[i].0@ == name@
                            &&& final(self).audits@[i].1@ == date@
                            &&& final(self).audits@[i].2@ == audits@
                            &&& forall|j: int|
                                0 <= j < old(self).audits@.len() && j != i ==> #[trigger] final(self).audits@[j]
                                    == old(self).audits@[j]
                        })
                },
                SurveyResult::UnsupportedVersion(v) => {
                    &&& final(self).version_failures == old(self).version_failures + 1
                    &&& final(self).successes == old(self).successes
                    &&& final(self).successes_with_invalids == old(self).successes_with_invalids
                    &&& final(self).parse_failures == old(self).parse_failures
                    &&& tally_count(final(self).invalid_versions@, v@) == tally_count(
                        old(self).invalid_versions@,
                        v@,
                    ) + 1
                    &&& final(self).audits@ == old(self).audits@
                },
                SurveyResult::ParseFailure(_) => {
                    &&& final(self).parse_failures == old(self).parse_failures + 1
                    &&& final(self).successes == old(self).successes
                    &&& final(self).successes_with_invalids == old(self).successes_with_invalids
                    &&& final(self).version_failures == old(self).version_failures
                    &&& final(self).invalid_versions@ == old(self).invalid_versions@
                    &&& final(self).audits@ == old(self).audits@
                },
            },
    {
        self.total += 1;
        match result {
            SurveyResult::Success((hash, datetime, _npacks, ninvalid, audits)) => {
                self.successes += 1;
                if ninvalid > 0 {
                    self.successes_with_invalids += 1;
                }
                if audits.len() > 0 {
                    let ghost before = self.audits@;
                    let ghost name = hash@;
                    let ghost list = audits@;
                    let ghost when = datetime@;
                    let mut i: usize = 0;
                    while i < self.audits.len() && !(self.audits[i].0 == hash)
                        invariant
                            i <= self.audits@.len(),
                            self.audits@ == before,
                            name == hash@,
                            forall|k: int| 0 <= k < i ==> #[trigger] before[k].0@ != name,
                        decreases self.audits@.len() - i,
                    {
                        i += 1;
                    }
                    let found = i < self.audits.len();
                    if found {
                        self.audits.set(i, (hash, datetime, audits));
                        assert(self.audits@[i as int].0@ == name);
                        assert forall|a: int, b: int|
                            0 <= a < b < self.audits@.len() implies self.audits@[a].0@
                            != self.audits@[b].0@ by {
                            if a != i && b != i {
                                assert(self.audits@[a] == before[a] && self.audits@[b] == before[b]);
                            } else if a == i {
                                assert(self.audits@[b] == before[b]);
                                assert(before[i as int].0@ != before[b].0@);
                            } else {
                                assert(self.audits@[a] == before[a]);
                                assert(before[a].0@ != before[i as int].0@);
                            }
                        }
                    } else {
                        self.audits.push((hash, datetime, audits));
                        assert(self.audits@[before.len() as int].0@ == name);
                        assert forall|a: int, b: int|
                            0 <= a < b < self.audits@.len() implies self.audits@[a].0@
                            != self.audits@[b].0@ by {
                            if b < before.len() {
                                assert(self.audits@[a] == before[a] && self.audits@[b] == before[b]);
                            } else {
                                assert(self.audits@[a] == before[a]);
                            }
                        }
                    }
                    assert(self.audits@[i as int].0@ == name && self.audits@[i as int].1@ == when
                        && self.audits@[i as int].2@ == list);
                }
            },
            SurveyResult::UnsupportedVersion(version) => {
                self.version_failures += 1;
                let ghost before = self.invalid_versions@;
                let ghost key = version@;
                let mut i: usize = 0;
                while i < self.invalid_versions.len() && !(self.invalid_versions[i].0 == version)
                    invariant
                        i <= self.invalid_versions@.len(),
                        self.invalid_versions@ == before,
                        key == version@,
                        forall|k: int| 0 <= k < i ==> #[trigger] before[k].0@ != key,
                    decreases self.invalid_versions@.len() - i,
                {
                    i += 1;
                }
                let found = i < self.invalid_versions.len();
                if found {
                    let count = self.invalid_versions[i].1;
                    proof {
                        lemma_tally_entry_le_sum(before, i as int);
                    }
                    self.invalid_versions.set(i, (version, count + 1));
                    proof {
                        lemma_tally_update(before, i as int, self.invalid_versions@[i as int], key);
                        assert(self.invalid_versions@ == before.update(
                            i as int,
                            self.invalid_versions@[i as int],
                        ));
                        assert forall|a: int, b: int|
                            0 <= a < b < self.invalid_versions@.len() implies self.invalid_versions@[a].0@
                            != self.invalid_versions@[b].0@ by {
                            assert(self.invalid_versions@[a].0@ == before[a].0@);
                            assert(self.invalid_versions@[b].0@ == before[b].0@);
                        }
                    }
                } else {
                    self.invalid_versions.push((version, 1));
                    proof {
                        assert(self.invalid_versions@.drop_last() =~= before);
                        assert forall|a: int, b: int|
                            0 <= a < b < self.invalid_versions@.len() implies self.invalid_versions@[a].0@
                            != self.invalid_versions@[b].0@ by {
                            assert(self.invalid_versions@[a] == before[a]);
                        }
                    }
                }
            },
            SurveyResult::ParseFailure(_error) => {
                self.parse_failures += 1;
            },
        }
    }
}

// ---------------------------------------------------------------------------
// Investigation filters
// ---------------------------------------------------------------------------

/// What the parse_int crate reads from a number text (decimal, `0x`, `0o`,
/// `0b`, with `_` separators), as a `u32`.
pub uninterp spec fn parse_int_u32(text: Seq<char>) -> Option<u32>;

/// Calls `parse_int::parse::<u32>`; the result is what `parse_int_u32` names
/// for the text (`None` for its error). A text with a `-` is left out: the
/// crate negates a parsed number by subtracting from zero, which overflows
/// for `u32`.
#[verifier::external_body]
fn parse_int_u32_text(text: &str) -> (r: Option<u32>)
    requires
        !text@.contains('-'),
    ensures
        r == parse_int_u32(text@),
{
    parse_int::parse::<u32>(text).ok()
}

/// The number a command-line text gives: none for a text with a `-` (no
/// `u32` is negative), else what parse_int reads.
pub open spec fn number_option(text: Seq<char>) -> Option<u32> {
    if text.contains('-') {
        None
    } else {
        parse_int_u32(text)
    }
}

/// Whether a text holds a `-`.
fn has_minus(text: &str) -> (r: bool)
    ensures
        r == text@.contains('-'),
{
    let n = text.unicode_len();
    let mut i: usize = 0;
    while i < n
        invariant
            i <= n,
            n == text@.len(),
            forall|j: int| 0 <= j < i ==> text@[j] != '-',
        decreases n - i,
    {
        if text.get_char(i) == '-' {
            assert(text@[i as int] == '-');
            return true;
        }
        i += 1;
    }
    false
}

/// Reads a number option.
fn parse_number(text: &str) -> (r: Option<u32>)
    ensures
        r == number_option(text@),
{
    if has_minus(text) {
        None
    } else {
        parse_int_u32_text(text)
    }
}

/// The options of the packet investigation tool, as given on the command line.
pub struct InvestigativeBuilder {
    pub no_meta: bool,
    pub filter_packet: Option<String>,
    pub filter_method: Option<String>,
    pub timestamp: Option<String>,
    pub entity_id: Option<String>,
}

/// The options of the investigation tool, read.
pub struct InvestigationFilters {
    /// Only packets of this type.
    pub filter_packet: Option<u32>,
    /// Only calls of this entity method.
    pub filter_method: Option<String>,
    /// A clock reference: the clock in seconds at `hh:mm:ss`, and the offset
    /// (in seconds) to subtract from it.
    pub timestamp: Option<(u32, u32)>,
    /// Only calls on this entity.
    pub entity_id: Option<u32>,
    /// Whether to print the replay metadata and players.
    pub meta: bool,
}

/// Why the investigation options could not be read.
#[derive(Debug, Clone, Copy, PartialEq, Eq, Structural)]
pub enum InvestigationError {
    BadPacketFilter,
    BadEntityId,
    BadTimestamp,
}

/// A timestamp `hh:mm:ss+offset`: the seconds of `hh:mm:ss` (when they fit
/// a `u32`) and the offset.
pub open spec fn timestamp_spec(s: Seq<char>) -> Option<(u32, u32)> {
    let parts = split_pieces(s, '+');
    if parts.len() < 2 {
        None
    } else {
        match parse_unsigned_spec(parts[1], u32::MAX as int) {
            None => None,
            Some(offset) => {
                let hms = split_pieces(parts[0], ':');
                if hms.len() != 3 {
                    None
                } else {
                    match (
                        parse_unsigned_spec(hms[0], u32::MAX as int),
                        parse_unsigned_spec(hms[1], u32::MAX as int),
                        parse_unsigned_spec(hms[2], u32::MAX as int),
                    ) {
                        (Some(h), Some(m), Some(sec)) => if h * 3600 + m * 60 + sec <= u32::MAX {
                            Some(((h * 3600 + m * 60 + sec) as u32, offset as u32))
                        } else {
                            None
                        },
                        _ => None,
                    }
                }
            },
        }
    }
}

/// Reads a timestamp `hh:mm:ss+offset`.
pub fn parse_timestamp(s: &str) -> (r: Option<(u32, u32)>)
    ensures
        r == timestamp_spec(s@),
{
    let parts = split_char(s, '+');
    if parts.len() < 2 {
        return None;
    }
    let offset = match parse_unsigned(parts[1].as_str(), 0xffff_ffff) {
        Some(o) => o,
        None => {
            return None;
        },
    };
    let hms = split_char(parts[0].as_str(), ':');
    if hms.len() != 3 {
        return None;
    }
    let h = parse_unsigned(hms[0].as_str(), 0xffff_ffff);
    let m = parse_unsigned(hms[1].as_str(), 0xffff_ffff);
    let sec = parse_unsigned(hms[2].as_str(), 0xffff_ffff);
    match (h, m, sec) {
        (Some(h), Some(m), Some(sec)) => {
            let total = h * 3600 + m * 60 + sec;
            if total <= 0xffff_ffff {
                Some((total as u32, offset as u32))
            } else {
                None
            }
        },
        _ => None,
    }
}

impl InvestigativeBuilder {
    /// Reads the options: packet type and entity id with parse_int, the
    /// timestamp as `hh:mm:ss+offset`.
    pub fn filters(&self) -> (r: Result<InvestigationFilters, InvestigationError>)
        ensures
            match r {
                Ok(f) => {
                    &&& f.meta == !self.no_meta
                    &&& match self.filter_packet {
                        Some(t) => number_option(t@) is Some && f.filter_packet == number_option(t@),
                        None => f.filter_packet is None,
                    }
                    &&& match self.entity_id {
                        Some(t) => number_option(t@) is Some && f.entity_id == number_option(t@),
                        None => f.entity_id is None,
                    }
                    &&& match self.timestamp {
                        Some(t) => timestamp_spec(t@) is Some && f.timestamp == timestamp_spec(t@),
                        None => f.timestamp is None,
                    }
                    &&& match self.filter_method {
                        Some(m) => f.filter_method matches Some(x) && x@ == m@,
                        None => f.filter_method is None,
                    }
                },
                Err(InvestigationError::BadPacketFilter) => self.filter_packet matches Some(t)
                    && number_option(t@) is None,
                Err(InvestigationError::BadTimestamp) => {
                    &&& (self.filter_packet matches Some(t) ==> number_option(t@) is Some)
                    &&& (self.timestamp matches Some(t) && timestamp_spec(t@) is None)
                },
                Err(InvestigationError::BadEntityId) => {
                    &&& (self.filter_packet matches Some(t) ==> number_option(t@) is Some)
                    &&& (self.timestamp matches Some(t) ==> timestamp_spec(t@) is Some)
                    &&& (self.entity_id matches Some(t) && number_option(t@) is None)
                },
            },
    {
        let filter_packet = match &self.filter_packet {
            Some(t) => match parse_number(t.as_str()) {
                Some(n) => Some(n),
                None => {
                    return Err(InvestigationError::BadPacketFilter);
                },
            },
            None => None,
        };
        let timestamp = match &self.timestamp {
            Some(t) => match parse_timestamp(t.as_str()) {
                Some(v) => Some(v),
                None => {
                    return Err(InvestigationError::BadTimestamp);
                },
            },
            None => None,
        };
        let entity_id = match &self.entity_id {
            Some(t) => match parse_number(t.as_str()) {
                Some(n) => Some(n),
                None => {
                    return Err(InvestigationError::BadEntityId);
                },
            },
            None => None,
        };
        let filter_method = match &self.filter_method {
            Some(m) => Some(m.as_str().to_owned()),
            None => None,
        };
        Ok(InvestigationFilters { filter_packet, filter_method, timestamp, entity_id, meta: !self.no_meta })
    }
}

/// Whether the investigation tool prints a packet: it must be of the
/// filtered packet type, and, when a method is filtered, a call of that
/// method (on the filtered entity, if one is given).
pub open spec fn accepts_spec(
    f: InvestigationFilters,
    packet_type: u32,
    method: Option<(Seq<char>, u32)>,
) -> bool {
    &&& (f.filter_packet matches Some(n) ==> n == packet_type)
    &&& (f.filter_method matches Some(name) ==> method matches Some((m, eid)) && m == name@ && (
    f.entity_id matches Some(e) ==> eid == e))
}

impl InvestigationFilters {
    /// Whether a packet of `packet_type` passes the filters; `method` is the
    /// method name and entity of an entity method call.
    pub fn accepts(&self, packet_type: u32, method: Option<(&str, u32)>) -> (r: bool)
        ensures
            r == accepts_spec(
                *self,
                packet_type,
                match method {
                    Some((m, e)) => Some((m@, e)),
                    None => None,
                },
            ),
    {
        if let Some(n) = self.filter_packet {
            if n != packet_type {
                return false;
            }
        }
        if let Some(name) = &self.filter_method {
            match method {
                Some((m, eid)) => {
                    if !str_eq(m, name.as_str()) {
                        return false;
                    }
                    if let Some(e) = self.entity_id {
                        if eid != e {
                            return false;
                        }
                    }
                },
                None => {
                    return false;
                },
            }
        }
        true
    }
}

// ---------------------------------------------------------------------------
// Game builds
// ---------------------------------------------------------------------------

/// The largest build number among directory names that are numbers.
pub open spec fn latest_build_spec(names: Seq<String>) -> Option<int>
    decreases names.len(),
{
    if names.len() == 0 {
        None
    } else {
        let rest = latest_build_spec(names.drop_last());
        match parse_unsigned_spec(names.last()@, usize::MAX as int) {
            None => rest,
            Some(n) => match rest {
                Some(m) => if m < n {
                    Some(n)
                } else {
                    Some(m)
                },
                None => Some(n),
            },
        }
    }
}

/// The latest game build among the names of the directories under the
/// game's `bin` directory: the largest that is a number.
pub fn latest_build(dir_names: &Vec<String>) -> (r: Option<usize>)
    ensures
        match latest_build_spec(dir_names@) {
            Some(n) => r == Some(n as usize),
            None => r is None,
        },
{
    let mut latest: Option<usize> = None;
    let mut i: usize = 0;
    while i < dir_names.len()
        invariant
            i <= dir_names@.len(),
            match latest_build_spec(dir_names@.subrange(0, i as int)) {
                Some(n) => latest == Some(n as usize) && 0 <= n <= usize::MAX,
                None => latest is None,
            },
        decreases dir_names@.len() - i,
    {
        proof {
            assert(dir_names@.subrange(0, i as int + 1).drop_last() =~= dir_names@.subrange(
                0,
                i as int,
            ));
        }
        let parsed = parse_unsigned(dir_names[i].as_str(), usize::MAX as u64);
        if let Some(n) = parsed {
            let n = n as usize;
            match latest {
                Some(m) => {
                    if m < n {
                        latest = Some(n);
                    }
                },
                None => {
                    latest = Some(n);
                },
            }
        }
        i += 1;
    }
    proof {
        assert(dir_names@.subrange(0, dir_names@.len() as int) =~= dir_names@);
    }
    latest
}

/// The latest build is one of the numbered directories, and no numbered
/// directory has a later build.
pub proof fn lemma_latest_build_is_maximum(names: Seq<String>, k: int)
    requires
        0 <= k < names.len(),
        parse_unsigned_spec(names[k]@, usize::MAX as int) is Some,
    ensures
        latest_build_spec(names) matches Some(m) && parse_unsigned_spec(names[k]@, usize::MAX as int)->0
            <= m,
    decreases names.len(),
{
    if k < names.len() - 1 {
        lemma_latest_build_is_maximum(names.drop_last(), k);
        assert(names.drop_last()[k] == names[k]);
    }
}

/// A clock of whole seconds as hours, minutes and seconds, as the
/// investigation tool prints it.
pub fn clock_hms(clock: u32) -> (r: (u32, u32, u32))
    ensures
        r.0 * 3600 + r.1 * 60 + r.2 == clock,
        r.1 < 60,
        r.2 < 60,
{
    let s = clock % 60;
    let rest = (clock - s) / 60;
    let m = rest % 60;
    let h = (rest - m) / 60;
    (h, m, s)
}

// ---------------------------------------------------------------------------
// Audit report
// ---------------------------------------------------------------------------

/// What chrono reads from a replay's date and time text in the format
/// `%d.%m.%Y %H:%M:%S`: the seconds from 1970-01-01 00:00:00 to that date
/// and time (no time zone), or `None` where the text does not parse.
pub uninterp spec fn replay_datetime(text: Seq<char>) -> Option<i64>;

/// Calls `chrono::NaiveDateTime::parse_from_str` with the replays' format and
/// reads the parsed date and time as seconds since 1970 (`and_utc` then
/// `timestamp`); the result is what `replay_datetime` names for the text.
#[verifier::external_body]
fn parse_replay_datetime(text: &str) -> (r: Option<i64>)
    ensures
        r == replay_datetime(text@),
{
    match chrono::NaiveDateTime::parse_from_str(text, "%d.%m.%Y %H:%M:%S") {
        Ok(t) => Some(t.and_utc().timestamp()),
        Err(_) => None,
    }
}

/// The positions `0..times.len()`, ordered by their times; positions with
/// equal times keep their order.
pub open spec fn ordered_by_time(times: Seq<i64>, p: Seq<usize>) -> bool {
    &&& p.len() == times.len()
    &&& forall|a: int| 0 <= a < p.len() ==> #[trigger] p[a] < times.len()
    &&& forall|a: int, b: int| 0 <= a < b < p.len() ==> #[trigger] p[a] != #[trigger] p[b]
    &&& forall|a: int, b: int|
        0 <= a < b < p.len() ==> times[#[trigger] p[a] as int] <= times[#[trigger] p[b] as int]
    &&& forall|a: int, b: int|
        0 <= a < b < p.len() && times[p[a] as int] == times[p[b] as int] ==> #[trigger] p[a] < #[trigger] p[b]
}

/// Orders positions by their times, keeping the order of equal times.
pub fn order_by_time(times: &Vec<i64>) -> (p: Vec<usize>)
    ensures
        ordered_by_time(times@, p@),
{
    let mut p: Vec<usize> = Vec::new();
    let mut i: usize = 0;
    while i < times.len()
        invariant
            i <= times@.len(),
            p@.len() == i,
            forall|a: int| 0 <= a < p@.len() ==> #[trigger] p@[a] < i,
            forall|a: int, b: int| 0 <= a < b < p@.len() ==> #[trigger] p@[a] != #[trigger] p@[b],
            forall|a: int, b: int|
                0 <= a < b < p@.len() ==> times@[#[trigger] p@[a] as int] <= times@[#[trigger] p@[b] as int],
            forall|a: int, b: int|
                0 <= a < b < p@.len() && times@[p@[a] as int] == times@[p@[b] as int] ==> #[trigger] p@[a]
                    < #[trigger] p@[b],
        decreases times@.len() - i,
    {
        let t = times[i];
        let mut pos: usize = 0;
        while pos < p.len() && times[p[pos]] <= t
            invariant
                pos <= p@.len(),
                forall|a: int| 0 <= a < p@.len() ==> #[trigger] p@[a] < i,
                i < times@.len(),
                t == times@[i as int],
                forall|a: int| 0 <= a < pos ==> times@[#[trigger] p@[a] as int] <= t,
            decreases p@.len() - pos,
        {
            pos += 1;
        }
        let ghost old_p = p@;
        proof {
            old_p.insert_ensures(pos as int, i);
            if pos < old_p.len() {
                assert(times@[old_p[pos as int] as int] > t);
                assert forall|a: int| pos <= a < old_p.len() implies times@[#[trigger] old_p[a] as int] > t by {
                    if a > pos {
                        assert(times@[old_p[pos as int] as int] <= times@[old_p[a] as int]);
                    }
                }
            }
        }
        p.insert(pos, i);
        assert forall|a: int| 0 <= a < p@.len() implies #[trigger] p@[a] < i + 1 by {
            if a < pos {
                assert(p@[a] == old_p[a]);
            } else if a > pos {
                assert(p@[a] == old_p[a - 1]);
            }
        }
        assert forall|a: int, b: int| 0 <= a < b < p@.len() implies #[trigger] p@[a] != #[trigger] p@[b] by {
            if a < pos && b < pos {
                assert(p@[a] == old_p[a] && p@[b] == old_p[b]);
            } else if a < pos && b > pos {
                assert(p@[a] == old_p[a] && p@[b] == old_p[b - 1]);
            } else if a > pos && b > pos {
                assert(p@[a] == old_p[a - 1] && p@[b] == old_p[b - 1]);
            } else if a == pos {
                assert(p@[b] == old_p[b - 1]);
            } else {
                assert(p@[a] == old_p[a]);
            }
        }
        assert forall|a: int, b: int| 0 <= a < b < p@.len() implies times@[#[trigger] p@[a] as int]
            <= times@[#[trigger] p@[b] as int] by {
            if a < pos && b < pos {
                assert(p@[a] == old_p[a] && p@[b] == old_p[b]);
            } else if a < pos && b > pos {
                assert(p@[a] == old_p[a] && p@[b] == old_p[b - 1]);
            } else if a > pos && b > pos {
                assert(p@[a] == old_p[a - 1] && p@[b] == old_p[b - 1]);
            } else if a == pos {
                assert(p@[b] == old_p[b - 1]);
            } else {
                assert(p@[a] == old_p[a]);
            }
        }
        assert forall|a: int, b: int|
            0 <= a < b < p@.len() && times@[p@[a] as int] == times@[p@[b] as int] implies #[trigger] p@[a]
                < #[trigger] p@[b] by {
            if a < pos && b < pos {
                assert(p@[a] == old_p[a] && p@[b] == old_p[b]);
            } else if a < pos && b > pos {
                assert(p@[a] == old_p[a] && p@[b] == old_p[b - 1]);
            } else if a > pos && b > pos {
                assert(p@[a] == old_p[a - 1] && p@[b] == old_p[b - 1]);
            } else if a == pos {
                assert(p@[b] == old_p[b - 1]);
            } else {
                assert(p@[a] == old_p[a]);
            }
        }
        i += 1;
    }
    p
}

/// How many audits of a replay the report shows.
pub const AUDITS_SHOWN: usize = 10;

/// How many characters of a replay's file name the report shows.
pub const NAME_SHOWN: usize = 20;

/// One replay of the audit report.
pub struct AuditReport {
    /// Which entry of the survey's audits this is.
    pub source: usize,
    /// The file name, cut to its first 20 characters.
    pub name: String,
    /// The replay's date and time.
    pub datetime: String,
    /// How many audits the replay has.
    pub count: usize,
    /// Its first ten audits.
    pub shown: Vec<String>,
    /// Whether it has more than ten.
    pub truncated: bool,
}

/// The report's entry for one replay with audits.
pub open spec fn report_entry_ok(e: AuditReport, a: (String, String, Vec<String>)) -> bool {
    &&& e.name@ == truncated(a.0@, NAME_SHOWN as int)
    &&& e.datetime@ == a.1@
    &&& e.count == a.2@.len()
    &&& e.shown@ == if a.2@.len() <= AUDITS_SHOWN {
        a.2@
    } else {
        a.2@.take(AUDITS_SHOWN as int)
    }
    &&& e.truncated == (a.2@.len() > AUDITS_SHOWN)
}

/// The times of the replays with audits.
pub open spec fn audit_times(audits: Seq<(String, String, Vec<String>)>) -> Seq<i64> {
    Seq::new(audits.len(), |k: int| replay_datetime(audits[k].1@)->0)
}

impl SurveyResults {
    /// The replays with audits, ordered by their date and time (replays of
    /// equal times in the order they were surveyed), each with its name cut
    /// to 20 characters, its audit count and its first ten audits; `None`
    /// when a replay's date and time does not parse.
    pub fn audit_report(&self) -> (r: Option<Vec<AuditReport>>)
        ensures
            r is None <==> exists|k: int|
                0 <= k < self.audits@.len() && (#[trigger] replay_datetime(self.audits@[k].1@)) is None,
            r matches Some(rep) ==> {
                &&& ordered_by_time(audit_times(self.audits@), rep@.map_values(|e: AuditReport| e.source))
                &&& forall|j: int|
                    0 <= j < rep@.len() ==> report_entry_ok(#[trigger] rep@[j], self.audits@[rep@[j].source as int])
            },
    {
        let mut times: Vec<i64> = Vec::new();
        let mut k: usize = 0;
        while k < self.audits.len()
            invariant
                k <= self.audits@.len(),
                times@.len() == k,
                forall|j: int|
                    #![trigger replay_datetime(self.audits@[j].1@)]
                    #![trigger times@[j]]
                    0 <= j < k ==> replay_datetime(self.audits@[j].1@) == Some(times@[j]),
            decreases self.audits@.len() - k,
        {
            match parse_replay_datetime(self.audits[k].1.as_str()) {
                Some(t) => times.push(t),
                None => {
                    return None;
                },
            }
            k += 1;
        }
        assert(times@ =~= audit_times(self.audits@));
        let order = order_by_time(&times);
        let mut rep: Vec<AuditReport> = Vec::new();
        let mut j: usize = 0;
        while j < order.len()
            invariant
                j <= order@.len(),
                ordered_by_time(times@, order@),
                times@ == audit_times(self.audits@),
                forall|q: int|
                    0 <= q < self.audits@.len() ==> (#[trigger] replay_datetime(self.audits@[q].1@)) is Some,
                rep@.len() == j,
                forall|i: int| 0 <= i < j ==> (#[trigger] rep@[i]).source == order@[i],
                forall|i: int|
                    0 <= i < j ==> report_entry_ok(#[trigger] rep@[i], self.audits@[rep@[i].source as int]),
            decreases order@.len() - j,
        {
            let src = order[j];
            let a = &self.audits[src];
            let name = truncate_string(a.0.as_str(), NAME_SHOWN).to_string();
            let n = a.2.len();
            let limit = if n <= AUDITS_SHOWN {
                n
            } else {
                AUDITS_SHOWN
            };
            let mut shown: Vec<String> = Vec::new();
            let mut i: usize = 0;
            while i < limit
                invariant
                    i <= limit,
                    limit <= a.2@.len(),
                    shown@ == a.2@.take(i as int),
                decreases limit - i,
            {
                shown.push(a.2[i].clone());
                assert(a.2@.take(i + 1) =~= a.2@.take(i as int).push(a.2@[i as int]));
                i += 1;
            }
            assert(n <= AUDITS_SHOWN ==> a.2@.take(limit as int) =~= a.2@);
            rep.push(
                AuditReport {
                    source: src,
                    name,
                    datetime: a.1.clone(),
                    count: n,
                    shown,
                    truncated: n > AUDITS_SHOWN,
                },
            );
            j += 1;
        }
        assert(rep@.map_values(|e: AuditReport| e.source) =~= order@);
        Some(rep)
    }
}

} // verus!
