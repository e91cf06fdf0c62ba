//! Data model of the engine: command events, persisted patterns and
//! suggestions, and the small JSON helpers they need.
//!
//! The store collaborator keeps list-valued columns (tags, pattern commands,
//! changed files) as JSON text; encoding and decoding those lists is done by
//! `serde_json` behind the trusted items below.

use vstd::prelude::*;

verus! {

/// The JSON text that `serde_json` produces for a list of strings.
/// The encoding is a function of the list alone.
pub uninterp spec fn json_of_strings(items: Seq<Seq<char>>) -> Seq<char>;

/// The list of strings that `serde_json` parses out of a JSON text, or
/// `None` when the text is not a JSON array of strings. The result is a
/// function of the text alone.
pub uninterp spec fn strings_of_json(text: Seq<char>) -> Option<Seq<Seq<char>>>;

/// Relies on `serde_json::to_string` for `Vec<String>`: the encoding is
/// deterministic, and `serde_json::from_str` parses it back to an equal
/// list (JSON round trip for an array of strings).
#[verifier::external_body]
fn encode_string_list(items: &Vec<String>) -> (r: Option<String>)
    ensures
        r matches Some(s) ==> s@ == json_of_strings(items.deep_view())
            && strings_of_json(s@) == Some(items.deep_view()),
{
    serde_json::to_string(items).ok()
}

/// Relies on `serde_json::from_str` for `Vec<String>`: parsing is a
/// deterministic function of the text; `None` exactly when parsing fails.
#[verifier::external_body]
fn decode_string_list(text: &str) -> (r: Option<Vec<String>>)
    ensures
        match r {
            Some(v) => strings_of_json(text@) == Some(v.deep_view()),
            None => strings_of_json(text@) is None,
        },
{
    serde_json::from_str::<Vec<String>>(text).ok()
}

/// The string list stored in an optional JSON column: empty when the column
/// is absent or does not parse as a JSON array of strings.
pub open spec fn spec_string_list_column(column: Option<String>) -> Seq<Seq<char>> {
    match column {
        Option::None => Seq::empty(),
        Option::Some(t) => match strings_of_json(t@) {
            Option::Some(l) => l,
            Option::None => Seq::empty(),
        },
    }
}

/// A recorded command event, as the store collaborator returns it.
/// The store keeps one row per `(project_path, command)` pair and increments
/// `usage_count` on repeats, so `usage_count >= 1` on every stored row.
pub struct Command {
    pub id: i64,
    pub project_path: String,
    pub command: String,
    pub timestamp: String,
    pub is_fav: bool,
    pub usage_count: i32,
    pub execution_time_ms: Option<i32>,
    pub exit_code: Option<i32>,
    pub tags: Option<String>,
    pub context: Option<String>,
}

impl Command {
    /// Tags of this command, decoded from the JSON column; empty when the
    /// column is absent or malformed.
    pub fn get_tags(&self) -> (r: Vec<String>)
        ensures
            r.deep_view() == spec_string_list_column(self.tags),
    {
        match &self.tags {
            Option::None => Vec::new(),
            Option::Some(t) => match decode_string_list(t.as_str()) {
                Option::Some(v) => v,
                Option::None => Vec::new(),
            },
        }
    }

    /// Store the given tags as a JSON column. Returns `false` (leaving the
    /// command unchanged) when encoding fails; on success `get_tags` decodes
    /// the same list back.
    pub fn set_tags(&mut self, tags: Vec<String>) -> (ok: bool)
        ensures
            ok ==> (final(self).tags matches Some(t) && t@ == json_of_strings(
                tags.deep_view(),
            )),
            ok ==> spec_string_list_column(final(self).tags) == tags.deep_view(),
            !ok ==> final(self).tags == old(self).tags,
            *final(self) == (Command { tags: final(self).tags, ..*old(self) }),
    {
        match encode_string_list(&tags) {
            Option::Some(t) => {
                self.tags = Option::Some(t);
                true
            },
            Option::None => false,
        }
    }
}

impl Clone for Command {
    fn clone(&self) -> (r: Self)
        ensures
            r == *self,
    {
        Command {
            id: self.id,
            project_path: self.project_path.clone(),
            command: self.command.clone(),
            timestamp: self.timestamp.clone(),
            is_fav: self.is_fav,
            usage_count: self.usage_count,
            execution_time_ms: self.execution_time_ms,
            exit_code: self.exit_code,
            tags: self.tags.clone(),
            context: self.context.clone(),
        }
    }
}

/// Input for recording a new command event.
pub struct CommandInput {
    pub project_path: String,
    pub command: String,
    pub execution_time_ms: Option<i32>,
    pub exit_code: Option<i32>,
    pub context: Option<String>,
}

/// The closed set of pattern kinds the miner can emit.
#[derive(Clone, Copy, PartialEq, Eq, Structural, Debug)]
pub enum PatternType {
    Sequential,
    Frequency,
    TimeBased,
    ContextBased,
}

impl PatternType {
    /// The storage label of this pattern kind.
    pub fn label(&self) -> (r: &'static str)
        ensures
            *self == PatternType::Sequential ==> r@ == "sequence"@,
            *self == PatternType::Frequency ==> r@ == "frequency"@,
            *self == PatternType::TimeBased ==> r@ == "time_based"@,
            *self == PatternType::ContextBased ==> r@ == "context_based"@,
    {
        match self {
            PatternType::Sequential => "sequence",
            PatternType::Frequency => "frequency",
            PatternType::TimeBased => "time_based",
            PatternType::ContextBased => "context_based",
        }
    }
}

/// A persisted pattern row, as the store collaborator returns it.
/// `confidence_score` is a fixed-point fraction of [`crate::scorer::SCALE`].
pub struct CommandPattern {
    pub id: i64,
    pub pattern_type: String,
    pub commands: String,
    pub project_path: Option<String>,
    pub confidence_score: u64,
    pub occurrences: i32,
    pub last_seen: String,
    pub metadata: Option<String>,
}

impl CommandPattern {
    /// The command list of this pattern, decoded from its JSON column;
    /// empty when the column is malformed.
    pub fn get_commands(&self) -> (r: Vec<String>)
        ensures
            r.deep_view() == spec_string_list_column(Some(self.commands)),
    {
        match decode_string_list(self.commands.as_str()) {
            Option::Some(v) => v,
            Option::None => Vec::new(),
        }
    }
}

/// A persisted suggestion record with its feedback counters.
/// `confidence` is a fixed-point fraction of [`crate::scorer::SCALE`].
pub struct Suggestion {
    pub id: i64,
    pub project_path: String,
    pub context: Option<String>,
    pub suggested_command: String,
    pub reason: Option<String>,
    pub confidence: u64,
    pub times_accepted: i32,
    pub times_rejected: i32,
    pub created_at: String,
    pub last_suggested: Option<String>,
}

/// The acceptance rate of a suggestion record as a fixed-point fraction:
/// `times_accepted / (times_accepted + times_rejected)`, and 0 before any
/// feedback exists.
pub open spec fn spec_acceptance_rate(times_accepted: int, times_rejected: int) -> int {
    if times_accepted + times_rejected == 0 {
        0
    } else {
        times_accepted * crate::scorer::SCALE / (times_accepted + times_rejected)
    }
}

/// The record as it stands after one piece of feedback: exactly one counter
/// is incremented, `last_suggested` is stamped, everything else is kept.
pub open spec fn spec_apply_feedback(s: Suggestion, accepted: bool, now: String) -> Suggestion {
    Suggestion {
        times_accepted: if accepted {
            (s.times_accepted + 1) as i32
        } else {
            s.times_accepted
        },
        times_rejected: if accepted {
            s.times_rejected
        } else {
            (s.times_rejected + 1) as i32
        },
        last_suggested: Some(now),
        ..s
    }
}

impl Suggestion {
    /// Acceptance rate in fixed point; 0 when no feedback was recorded yet.
    pub fn acceptance_rate(&self) -> (r: u64)
        requires
            self.times_accepted >= 0,
            self.times_rejected >= 0,
        ensures
            r == spec_acceptance_rate(self.times_accepted as int, self.times_rejected as int),
            r <= crate::scorer::SCALE,
    {
        let total: i64 = self.times_accepted as i64 + self.times_rejected as i64;
        if total == 0 {
            0
        } else {
            let a: i64 = self.times_accepted as i64;
            proof {
                vstd::arithmetic::mul::lemma_mul_inequality(
                    a as int,
                    total as int,
                    crate::scorer::SCALE as int,
                );
                vstd::arithmetic::div_mod::lemma_div_is_ordered(
                    a as int * crate::scorer::SCALE as int,
                    total as int * crate::scorer::SCALE as int,
                    total as int,
                );
                vstd::arithmetic::div_mod::lemma_div_multiples_vanish(
                    crate::scorer::SCALE as int,
                    total as int,
                );
                vstd::arithmetic::div_mod::lemma_div_pos_is_pos(
                    a as int * crate::scorer::SCALE as int,
                    total as int,
                );
            }
            ((a as u128 * crate::scorer::SCALE as u128) / total as u128) as u64
        }
    }

    /// Record one piece of feedback on this record: increment exactly one of
    /// the two counters (they only ever grow) and stamp `last_suggested`.
    pub fn apply_feedback(&mut self, accepted: bool, now: String)
        requires
            old(self).times_accepted < i32::MAX,
            old(self).times_rejected < i32::MAX,
        ensures
            *final(self) == spec_apply_feedback(*old(self), accepted, now),
            accepted ==> final(self).times_accepted == old(self).times_accepted + 1
                && final(self).times_rejected == old(self).times_rejected,
            !accepted ==> final(self).times_rejected == old(self).times_rejected + 1
                && final(self).times_accepted == old(self).times_accepted,
    {
        if accepted {
            self.times_accepted = self.times_accepted + 1;
        } else {
            self.times_rejected = self.times_rejected + 1;
        }
        self.last_suggested = Some(now);
    }
}

/// Law: recording accepting feedback twice increments `times_accepted` by
/// exactly 2 and leaves `times_rejected` unchanged; symmetrically for
/// rejecting feedback and `times_rejected`.
pub proof fn lemma_feedback_twice(s: Suggestion, accepted: bool, now1: String, now2: String)
    requires
        s.times_accepted + 2 <= i32::MAX,
        s.times_rejected + 2 <= i32::MAX,
    ensures
        accepted ==> spec_apply_feedback(
            spec_apply_feedback(s, true, now1),
            true,
            now2,
        ).times_accepted == s.times_accepted + 2,
        accepted ==> spec_apply_feedback(
            spec_apply_feedback(s, true, now1),
            true,
            now2,
        ).times_rejected == s.times_rejected,
        !accepted ==> spec_apply_feedback(
            spec_apply_feedback(s, false, now1),
            false,
            now2,
        ).times_rejected == s.times_rejected + 2,
        !accepted ==> spec_apply_feedback(
            spec_apply_feedback(s, false, now1),
            false,
            now2,
        ).times_accepted == s.times_accepted,
{
}

/// A stored user preference.
pub struct Preference {
    pub key: String,
    pub value: String,
}

/// A stored command alias.
pub struct Alias {
    pub alias: String,
    pub command: String,
    pub project_path: Option<String>,
    pub created_at: String,
}

/// The execution context recorded beside a command event.
pub struct ExecutionContext {
    pub id: i64,
    pub command_id: i64,
    pub working_directory: Option<String>,
    pub previous_command: Option<String>,
    pub time_of_day: Option<String>,
    pub day_of_week: Option<String>,
    pub git_branch: Option<String>,
    pub files_changed: Option<String>,
}

impl ExecutionContext {
    /// The changed files recorded with this context, decoded from the JSON
    /// column; empty when absent or malformed.
    pub fn get_files_changed(&self) -> (r: Vec<String>)
        ensures
            r.deep_view() == spec_string_list_column(self.files_changed),
    {
        match &self.files_changed {
            Option::None => Vec::new(),
            Option::Some(t) => match decode_string_list(t.as_str()) {
                Option::Some(v) => v,
                Option::None => Vec::new(),
            },
        }
    }
}

/// Aggregate counts reported by the store collaborator.
pub struct DatabaseStats {
    pub total_commands: i64,
    pub total_patterns: i64,
    pub total_suggestions: i64,
    pub pool_size: u32,
    pub idle_connections: usize,
}

} // verus!
