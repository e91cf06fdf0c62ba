//! Suggestion engine: turns detected patterns, the context snapshot and the
//! most recent command into a ranked, capped list of explainable suggestions.
//!
//! The engine is pure: the store collaborator hands it pre-fetched data and
//! persists whatever it decides to keep. Confidence values are fixed-point
//! fractions of [`crate::scorer::SCALE`].

use vstd::prelude::*;
use crate::context::{Context, DayOfWeek, ProjectType, TimeOfDay};
use crate::models::Command;
use crate::pattern_detector::Pattern;
use crate::strutil::{contains_substr, spec_contains_substr, str_eq};

verus! {

broadcast use vstd::seq_lib::group_to_multiset_ensures;

/// How many suggestions one invocation returns at most.
pub const MAX_SUGGESTIONS: usize = 5;

/// A suggestion with its reasoning. `confidence` is a fixed-point fraction
/// of [`crate::scorer::SCALE`].
pub struct SmartSuggestion {
    pub command: String,
    pub reason: String,
    pub confidence: u64,
}

impl Clone for SmartSuggestion {
    fn clone(&self) -> (r: Self)
        ensures
            sugg_view(r) == sugg_view(*self),
    {
        SmartSuggestion {
            command: self.command.clone(),
            reason: self.reason.clone(),
            confidence: self.confidence,
        }
    }
}

/// A suggestion reduced to plain values: command text, reason text,
/// confidence.
pub open spec fn sugg_view(s: SmartSuggestion) -> (Seq<char>, Seq<char>, u64) {
    (s.command@, s.reason@, s.confidence)
}

/// The views of a suggestion list.
pub open spec fn sugg_views(s: Seq<SmartSuggestion>) -> Seq<(Seq<char>, Seq<char>, u64)> {
    s.map_values(|x: SmartSuggestion| sugg_view(x))
}

/// What the engine predicts after `last` given a learned sequence: the
/// command right after the first occurrence of `last` that has a successor.
pub open spec fn spec_predict_next(last: Seq<char>, sequence: Seq<Seq<char>>) -> Option<Seq<char>>
    decreases sequence.len(),
{
    if sequence.len() == 0 {
        None
    } else if sequence[0] == last && sequence.len() >= 2 {
        Some(sequence[1])
    } else {
        spec_predict_next(last, sequence.drop_first())
    }
}

/// Law: the prediction is empty exactly when `last` never occurs with a
/// successor; otherwise it is the successor of the first occurrence of
/// `last` that has one.
pub proof fn lemma_predict_next_characterization(last: Seq<char>, sequence: Seq<Seq<char>>)
    ensures
        (spec_predict_next(last, sequence) is None) <==> (forall|i: int|
            #![trigger sequence[i]]
            0 <= i < sequence.len() - 1 ==> sequence[i] != last),
        spec_predict_next(last, sequence) matches Some(next) ==> exists|i: int|
            #![trigger sequence[i]]
            0 <= i < sequence.len() - 1 && sequence[i] == last && next == sequence[i + 1] && (
            forall|j: int| #![trigger sequence[j]] 0 <= j < i ==> sequence[j] != last),
    decreases sequence.len(),
{
    if sequence.len() == 0 {
    } else if sequence[0] == last && sequence.len() >= 2 {
        assert(spec_predict_next(last, sequence) == Some(sequence[1]));
    } else {
        let tail = sequence.drop_first();
        lemma_predict_next_characterization(last, tail);
        assert(forall|i: int| 0 <= i < tail.len() ==> tail[i] == sequence[i + 1]);
        if spec_predict_next(last, sequence) is None {
            assert forall|i: int| 0 <= i < sequence.len() - 1 implies sequence[i] != last by {
                if i > 0 {
                    assert(sequence[i] == tail[i - 1]);
                }
            }
        } else {
            let next = spec_predict_next(last, tail).unwrap();
            assert(spec_predict_next(last, tail) matches Some(n) && n == next);
            let i0 = choose|i: int|
                #![trigger tail[i]]
                0 <= i < tail.len() - 1 && tail[i] == last && next == tail[i + 1] && (forall|
                    j: int,
                | #![trigger tail[j]] 0 <= j < i ==> tail[j] != last);
            assert(sequence[i0 + 1] == last);
            assert(next == sequence[i0 + 2]);
            assert forall|j: int| 0 <= j < i0 + 1 implies sequence[j] != last by {
                if j > 0 {
                    assert(tail[j - 1] != last);
                    assert(sequence[j] == tail[j - 1]);
                }
            }
        }
    }
}

/// The reason text attached to a pattern-based suggestion.
pub open spec fn spec_pattern_reason(next: Seq<char>, last: Seq<char>) -> Seq<char> {
    "You usually run '"@ + next + "' after '"@ + last + "'"@
}

/// The views of the suggestions mined from the patterns, in pattern order:
/// one suggestion per pattern of at least two commands whose sequence
/// predicts a successor of `last`, carrying the pattern's confidence.
pub open spec fn pattern_suggestion_views(patterns: Seq<Pattern>, last: Seq<char>) -> Seq<
    (Seq<char>, Seq<char>, u64),
>
    decreases patterns.len(),
{
    if patterns.len() == 0 {
        Seq::empty()
    } else {
        pattern_suggestion_views(patterns.drop_last(), last) + {
            let p = patterns.last();
            if p.commands.deep_view().len() >= 2 {
                match spec_predict_next(last, p.commands.deep_view()) {
                    Some(next) => seq![(next, spec_pattern_reason(next, last), p.confidence)],
                    None => Seq::empty(),
                }
            } else {
                Seq::empty()
            }
        }
    }
}

/// The reason text attached to a feature-branch suggestion.
pub open spec fn spec_branch_reason(branch: Seq<char>) -> Seq<char> {
    "On feature branch '"@ + branch + "': push changes"@
}

/// The views of the context-based suggestions: a fixed catalog keyed by the
/// project type, followed by a push reminder on feature branches.
pub open spec fn context_suggestion_views(c: Context) -> Seq<(Seq<char>, Seq<char>, u64)> {
    (match c.project_type {
        Some(ProjectType::Node) => seq![
            ("npm install"@, "Node project: install dependencies"@, 700_000u64),
            ("npm test"@, "Node project: run tests"@, 650_000u64),
        ],
        Some(ProjectType::Rust) => seq![
            ("cargo build"@, "Rust project: build project"@, 700_000u64),
            ("cargo test"@, "Rust project: run tests"@, 650_000u64),
        ],
        Some(ProjectType::Python) => seq![
            (
                "pip install -r requirements.txt"@,
                "Python project: install dependencies"@,
                700_000u64,
            ),
            ("python -m pytest"@, "Python project: run tests"@, 650_000u64),
        ],
        _ => Seq::empty(),
    }) + (match c.git_branch {
        Some(branch) => if spec_contains_substr(branch@, "feature"@) || spec_contains_substr(
            branch@,
            "feat"@,
        ) {
            seq![("git push"@, spec_branch_reason(branch@), 600_000u64)]
        } else {
            Seq::empty()
        },
        None => Seq::empty(),
    })
}

/// The views of the time-based suggestions: a sync reminder on Monday
/// mornings and a status check on Friday afternoons.
pub open spec fn time_suggestion_views(c: Context) -> Seq<(Seq<char>, Seq<char>, u64)> {
    (if c.day_of_week == DayOfWeek::Monday && c.time_of_day == TimeOfDay::Morning {
        seq![("git pull"@, "Monday morning: sync with latest changes"@, 650_000u64)]
    } else {
        Seq::empty()
    }) + (if c.day_of_week == DayOfWeek::Friday && c.time_of_day == TimeOfDay::Afternoon {
        seq![("git status"@, "Friday afternoon: check for uncommitted changes"@, 600_000u64)]
    } else {
        Seq::empty()
    })
}

/// The views of every candidate one invocation produces, in source order:
/// pattern-based (none without a recent command), context-based, time-based.
pub open spec fn all_suggestion_views(
    c: Context,
    patterns: Seq<Pattern>,
    recent: Seq<Command>,
) -> Seq<(Seq<char>, Seq<char>, u64)> {
    (if recent.len() == 0 {
        Seq::empty()
    } else {
        pattern_suggestion_views(patterns, recent[0].command@)
    }) + context_suggestion_views(c) + time_suggestion_views(c)
}

/// Confidences never increase along the list.
pub open spec fn sorted_desc(s: Seq<SmartSuggestion>) -> bool {
    forall|i: int, j: int| 0 <= i < j < s.len() ==> s[i].confidence >= s[j].confidence
}

/// The suggestion engine. It consumes pre-fetched data and returns the
/// ranked suggestions; all store traffic is the caller's business.
pub struct SuggestionEngine;

impl SuggestionEngine {
    /// Create a new suggestion engine.
    pub fn new() -> (r: SuggestionEngine) {
        SuggestionEngine
    }

    /// The command that usually follows `last_cmd` in a learned sequence:
    /// the successor of the first occurrence of `last_cmd` that has one.
    pub fn predict_next_in_sequence(&self, last_cmd: &str, sequence: &Vec<String>) -> (r: Option<
        String,
    >)
        ensures
            match r {
                Some(next) => spec_predict_next(last_cmd@, sequence.deep_view()) == Some(next@),
                None => spec_predict_next(last_cmd@, sequence.deep_view()) is None,
            },
    {
        let n = sequence.len();
        proof {
            assert(sequence.deep_view().subrange(0, n as int) =~= sequence.deep_view());
        }
        let mut i: usize = 0;
        while i < n
            invariant
                n == sequence@.len(),
                0 <= i <= n,
                spec_predict_next(last_cmd@, sequence.deep_view()) == spec_predict_next(
                    last_cmd@,
                    sequence.deep_view().subrange(i as int, n as int),
                ),
            decreases n - i,
        {
            proof {
                let suffix = sequence.deep_view().subrange(i as int, n as int);
                assert(suffix[0] == sequence.deep_view()[i as int]);
                assert(suffix.drop_first() =~= sequence.deep_view().subrange(i + 1, n as int));
            }
            if str_eq(sequence[i].as_str(), last_cmd) {
                if i + 1 < n {
                    return Some(sequence[i + 1].clone());
                }
            }
            i += 1;
        }
        proof {
            assert(sequence.deep_view().subrange(n as int, n as int) =~= Seq::empty());
        }
        None
    }

    /// The reason text for a pattern-based suggestion.
    fn build_pattern_reason(&self, next: &str, last: &str) -> (r: String)
        ensures
            r@ == spec_pattern_reason(next@, last@),
    {
        let mut r = String::new();
        r.append("You usually run '");
        r.append(next);
        r.append("' after '");
        r.append(last);
        r.append("'");
        proof {
            assert(r@ =~= spec_pattern_reason(next@, last@));
        }
        r
    }

    /// Suggestions mined from the detected patterns: for each pattern of at
    /// least two commands, the command that usually follows the most recent
    /// one, with the pattern's confidence. Nothing without a recent command.
    pub fn suggest_from_patterns(&self, patterns: &Vec<Pattern>, recent: &Vec<Command>) -> (r: Vec<
        SmartSuggestion,
    >)
        ensures
            recent@.len() == 0 ==> r@.len() == 0,
            recent@.len() > 0 ==> sugg_views(r@) == pattern_suggestion_views(
                patterns@,
                recent@[0].command@,
            ),
    {
        let mut out: Vec<SmartSuggestion> = Vec::new();
        if recent.len() == 0 {
            return out;
        }
        let last = &recent[0].command;
        let ghost lastv = recent@[0].command@;
        let n = patterns.len();
        let mut i: usize = 0;
        while i < n
            invariant
                n == patterns@.len(),
                lastv == last@,
                0 <= i <= n,
                sugg_views(out@) == pattern_suggestion_views(
                    patterns@.subrange(0, i as int),
                    lastv,
                ),
            decreases n - i,
        {
            proof {
                assert(patterns@.subrange(0, i + 1).drop_last() =~= patterns@.subrange(
                    0,
                    i as int,
                ));
                assert(patterns@.subrange(0, i + 1).last() == patterns@[i as int]);
            }
            if patterns[i].commands.len() >= 2 {
                match self.predict_next_in_sequence(last.as_str(), &patterns[i].commands) {
                    Some(next) => {
                        let reason = self.build_pattern_reason(next.as_str(), last.as_str());
                        let confidence = patterns[i].confidence;
                        out.push(SmartSuggestion { command: next, reason, confidence });
                        proof {
                            assert(sugg_views(out@) =~= pattern_suggestion_views(
                                patterns@.subrange(0, i + 1),
                                lastv,
                            ));
                        }
                    },
                    None => {
                        proof {
                            assert(sugg_views(out@) =~= pattern_suggestion_views(
                                patterns@.subrange(0, i + 1),
                                lastv,
                            ));
                        }
                    },
                }
            } else {
                proof {
                    assert(sugg_views(out@) =~= pattern_suggestion_views(
                        patterns@.subrange(0, i + 1),
                        lastv,
                    ));
                }
            }
            i += 1;
        }
        proof {
            assert(patterns@.subrange(0, n as int) =~= patterns@);
        }
        out
    }

    /// One catalog suggestion, built from its fixed texts.
    fn catalog_suggestion(&self, command: &str, reason: &str, confidence: u64) -> (r:
        SmartSuggestion)
        ensures
            sugg_view(r) == (command@, reason@, confidence),
    {
        SmartSuggestion { command: command.to_owned(), reason: reason.to_owned(), confidence }
    }

    /// Context-based suggestions: a fixed catalog keyed by the snapshot's
    /// project type, then a push reminder when the git branch looks like a
    /// feature branch.
    pub fn suggest_from_context(&self, context: &Context) -> (r: Vec<SmartSuggestion>)
        ensures
            sugg_views(r@) == context_suggestion_views(*context),
    {
        let mut out: Vec<SmartSuggestion> = Vec::new();
        match &context.project_type {
            Some(ProjectType::Node) => {
                out.push(self.catalog_suggestion(
                    "npm install",
                    "Node project: install dependencies",
                    700_000,
                ));
                out.push(self.catalog_suggestion("npm test", "Node project: run tests", 650_000));
            },
            Some(ProjectType::Rust) => {
                out.push(self.catalog_suggestion(
                    "cargo build",
                    "Rust project: build project",
                    700_000,
                ));
                out.push(self.catalog_suggestion("cargo test", "Rust project: run tests", 650_000));
            },
            Some(ProjectType::Python) => {
                out.push(self.catalog_suggestion(
                    "pip install -r requirements.txt",
                    "Python project: install dependencies",
                    700_000,
                ));
                out.push(self.catalog_suggestion(
                    "python -m pytest",
                    "Python project: run tests",
                    650_000,
                ));
            },
            _ => {},
        }
        match &context.git_branch {
            Some(branch) => {
                if contains_substr(branch.as_str(), "feature") || contains_substr(
                    branch.as_str(),
                    "feat",
                ) {
                    let mut reason = String::new();
                    reason.append("On feature branch '");
                    reason.append(branch.as_str());
                    reason.append("': push changes");
                    proof {
                        assert(reason@ =~= spec_branch_reason(branch@));
                    }
                    let command = "git push".to_owned();
                    let confidence: u64 = 600_000;
                    out.push(SmartSuggestion { command, reason, confidence });
                }
            },
            None => {},
        }
        proof {
            assert(sugg_views(out@) =~= context_suggestion_views(*context));
        }
        out
    }

    /// Time-based suggestions: sync on Monday mornings, check the tree on
    /// Friday afternoons.
    pub fn suggest_from_time(&self, context: &Context) -> (r: Vec<SmartSuggestion>)
        ensures
            sugg_views(r@) == time_suggestion_views(*context),
    {
        let mut out: Vec<SmartSuggestion> = Vec::new();
        if context.day_of_week == DayOfWeek::Monday && context.time_of_day == TimeOfDay::Morning {
            out.push(self.catalog_suggestion(
                "git pull",
                "Monday morning: sync with latest changes",
                650_000,
            ));
        }
        if context.day_of_week == DayOfWeek::Friday && context.time_of_day == TimeOfDay::Afternoon {
            out.push(self.catalog_suggestion(
                "git status",
                "Friday afternoon: check for uncommitted changes",
                600_000,
            ));
        }
        proof {
            assert(sugg_views(out@) =~= time_suggestion_views(*context));
        }
        out
    }

    /// The same suggestions, reordered so that confidences never increase.
    fn sort_by_confidence(&self, input: Vec<SmartSuggestion>) -> (r: Vec<SmartSuggestion>)
        ensures
            r@.to_multiset() == input@.to_multiset(),
            sorted_desc(r@),
    {
        let mut rest = input;
        let mut out: Vec<SmartSuggestion> = Vec::new();
        proof {
            assert(out@.to_multiset().add(rest@.to_multiset()) =~= rest@.to_multiset());
        }
        while rest.len() > 0
            invariant
                out@.to_multiset().add(rest@.to_multiset()) == input@.to_multiset(),
                sorted_desc(out@),
                forall|a: int, b: int|
                    0 <= a < out@.len() && 0 <= b < rest@.len() ==> out@[a].confidence
                        >= rest@[b].confidence,
            decreases rest@.len(),
        {
            let mut m: usize = 0;
            let mut k: usize = 1;
            while k < rest.len()
                invariant
                    rest@.len() > 0,
                    0 <= m < rest@.len(),
                    m < k,
                    1 <= k <= rest@.len(),
                    forall|b: int| 0 <= b < k ==> rest@[m as int].confidence
                        >= rest@[b].confidence,
                decreases rest@.len() - k,
            {
                if rest[k].confidence > rest[m].confidence {
                    m = k;
                }
                k += 1;
            }
            let ghost outpre = out@;
            let ghost restpre = rest@;
            let x = rest.remove(m);
            out.push(x);
            proof {
                vstd::seq_lib::to_multiset_remove(restpre, m as int);
                vstd::seq_lib::to_multiset_build(outpre, out@.last());
                vstd::seq_lib::to_multiset_contains(restpre, restpre[m as int]);
                assert(restpre.contains(restpre[m as int]));
                assert(out@.to_multiset().add(rest@.to_multiset()) =~= outpre.to_multiset().add(
                    restpre.to_multiset(),
                ));
            }
        }
        proof {
            assert(rest@.to_multiset() =~= vstd::multiset::Multiset::<SmartSuggestion>::empty());
            assert(out@.to_multiset().add(rest@.to_multiset()) =~= out@.to_multiset());
        }
        out
    }

    /// Rank the candidates: order them by falling confidence and keep the
    /// first `MAX_SUGGESTIONS`. The result is a prefix of a descending
    /// reordering of the whole candidate list, so everything kept is at
    /// least as confident as everything dropped.
    pub fn rank_suggestions(&self, suggestions: Vec<SmartSuggestion>) -> (r: Vec<SmartSuggestion>)
        ensures
            r@.len() == if suggestions@.len() < MAX_SUGGESTIONS {
                suggestions@.len() as int
            } else {
                MAX_SUGGESTIONS as int
            },
            sorted_desc(r@),
            exists|full: Seq<SmartSuggestion>|
                #![auto]
                full.to_multiset() == suggestions@.to_multiset() && sorted_desc(full) && r@
                    == full.subrange(0, r@.len() as int),
    {
        let ghost input = suggestions@;
        let mut sorted = self.sort_by_confidence(suggestions);
        let ghost full = sorted@;
        proof {
            vstd::seq_lib::to_multiset_len(full);
            vstd::seq_lib::to_multiset_len(input);
        }
        sorted.truncate(MAX_SUGGESTIONS);
        proof {
            assert(sorted@ == full.subrange(0, sorted@.len() as int)) by {
                if full.len() <= MAX_SUGGESTIONS {
                    assert(full.subrange(0, full.len() as int) =~= full);
                }
            }
        }
        sorted
    }

    /// Generate the suggestions for one invocation: mine the patterns for a
    /// follow-up to the most recent command, add the context catalog and the
    /// time-based reminders, then rank everything and keep the top
    /// `MAX_SUGGESTIONS`. Every returned suggestion is one of the candidates;
    /// persisting the survivors is the caller's business.
    pub fn generate_suggestions(
        &self,
        context: &Context,
        patterns: &Vec<Pattern>,
        recent: &Vec<Command>,
    ) -> (r: Vec<SmartSuggestion>)
        ensures
            sorted_desc(r@),
            r@.len() == if all_suggestion_views(*context, patterns@, recent@).len()
                < MAX_SUGGESTIONS {
                all_suggestion_views(*context, patterns@, recent@).len() as int
            } else {
                MAX_SUGGESTIONS as int
            },
            forall|k: int|
                0 <= k < r@.len() ==> all_suggestion_views(*context, patterns@, recent@).contains(
                    sugg_view(#[trigger] r@[k]),
                ),
    {
        let ghost all = all_suggestion_views(*context, patterns@, recent@);
        let mut candidates = self.suggest_from_patterns(patterns, recent);
        let mut from_context = self.suggest_from_context(context);
        let mut from_time = self.suggest_from_time(context);
        let ghost g1 = candidates@;
        let ghost g2 = from_context@;
        let ghost g3 = from_time@;
        candidates.append(&mut from_context);
        candidates.append(&mut from_time);
        proof {
            assert(candidates@ =~= g1 + g2 + g3);
            if recent@.len() == 0 {
                assert(g1 =~= Seq::<SmartSuggestion>::empty());
            }
            assert(sugg_views(candidates@) =~= all);
        }
        let ghost cands = candidates@;
        let r = self.rank_suggestions(candidates);
        proof {
            let full = choose|full: Seq<SmartSuggestion>|
                #![auto]
                full.to_multiset() == cands.to_multiset() && sorted_desc(full) && r@
                    == full.subrange(0, r@.len() as int);
            vstd::seq_lib::to_multiset_len(full);
            vstd::seq_lib::to_multiset_len(cands);
            assert forall|k: int| 0 <= k < r@.len() implies all.contains(
                sugg_view(#[trigger] r@[k]),
            ) by {
                assert(r@[k] == full[k]);
                assert(full.contains(full[k]));
                vstd::seq_lib::to_multiset_contains(full, full[k]);
                vstd::seq_lib::to_multiset_contains(cands, full[k]);
                let idx = choose|idx: int| 0 <= idx < cands.len() && cands[idx] == full[k];
                assert(all[idx] == sugg_view(cands[idx]));
            }
        }
        r
    }
}

} // verus!
