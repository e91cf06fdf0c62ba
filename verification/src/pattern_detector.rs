//! Pattern miner: finds recurring command sequences and frequently used
//! command groups in an ordered command history.
//!
//! The miner is pure: the store collaborator hands it the fetched history
//! (most-recent-first for sequence mining, most-used-first for frequency
//! mining) and it returns scored [`Pattern`] candidates. Confidence values
//! are fixed-point fractions of [`crate::scorer::SCALE`].

use vstd::prelude::*;
use crate::models::{Command, PatternType};
use crate::strutil::{is_ws, spec_is_ws};

verus! {

/// A window must recur at least this many times to count as a pattern.
pub const MIN_PATTERN_OCCURRENCES: u64 = 3;

/// Only patterns at least this confident (0.6 in fixed point) qualify for
/// persistence.
pub const MIN_CONFIDENCE: u64 = 600_000;

/// A detected pattern candidate. `confidence` is a fixed-point fraction of
/// [`crate::scorer::SCALE`]; `occurrences` counts window repetitions for
/// sequential patterns and summed usage for frequency patterns.
pub struct Pattern {
    pub pattern_type: PatternType,
    pub commands: Vec<String>,
    pub confidence: u64,
    pub occurrences: u64,
    pub project_path: Option<String>,
}

impl Clone for Pattern {
    fn clone(&self) -> (r: Self)
        ensures
            r.pattern_type == self.pattern_type,
            r.commands@ == self.commands@,
            r.confidence == self.confidence,
            r.occurrences == self.occurrences,
            r.project_path == self.project_path,
    {
        let commands = self.commands.clone();
        proof {
            assert(commands@ =~= self.commands@);
        }
        Pattern {
            pattern_type: self.pattern_type,
            commands,
            confidence: self.confidence,
            occurrences: self.occurrences,
            project_path: self.project_path.clone(),
        }
    }
}

/// The command texts of a fetched history, in fetch order.
pub open spec fn texts_of(commands: Seq<Command>) -> Seq<Seq<char>> {
    commands.map_values(|c: Command| c.command@)
}

/// All contiguous windows of length `w` over `texts`, in order; empty when
/// the history is shorter than the window.
pub open spec fn windows_of(texts: Seq<Seq<char>>, w: int) -> Seq<Seq<Seq<char>>> {
    if texts.len() < w {
        Seq::empty()
    } else {
        Seq::new((texts.len() - w + 1) as nat, |i: int| texts.subrange(i, i + w))
    }
}

/// Confidence of a sequential pattern: `min(occurrences/10, 0.7) +
/// min(window_size/10, 0.3)`, capped at 1.0, in fixed point.
pub open spec fn spec_sequence_confidence(occurrences: int, window_size: int) -> int {
    let base = if occurrences * 100_000 > 700_000 {
        700_000int
    } else {
        occurrences * 100_000
    };
    let bonus = if window_size * 100_000 > 300_000 {
        300_000int
    } else {
        window_size * 100_000
    };
    if base + bonus > 1_000_000 {
        1_000_000int
    } else {
        base + bonus
    }
}

/// The leading whitespace of `s` removed.
pub open spec fn spec_skip_ws(s: Seq<char>) -> Seq<char>
    decreases s.len(),
{
    if s.len() > 0 && spec_is_ws(s[0]) {
        spec_skip_ws(s.drop_first())
    } else {
        s
    }
}

/// The maximal non-whitespace prefix of `s`.
pub open spec fn spec_take_token(s: Seq<char>) -> Seq<char>
    decreases s.len(),
{
    if s.len() > 0 && !spec_is_ws(s[0]) {
        seq![s[0]] + spec_take_token(s.drop_first())
    } else {
        Seq::empty()
    }
}

/// The category of a command: its first whitespace-delimited token, taken
/// verbatim, or `"other"` when the command has no token at all.
pub open spec fn spec_category(s: Seq<char>) -> Seq<char> {
    let t = spec_take_token(spec_skip_ws(s));
    if t.len() == 0 {
        "other"@
    } else {
        t
    }
}

/// When the first `k` characters of `s` are whitespace and the next one (if
/// any) is not, skipping whitespace keeps exactly the suffix from `k` on.
proof fn lemma_skip_ws_at(s: Seq<char>, k: int)
    requires
        0 <= k <= s.len(),
        forall|j: int| 0 <= j < k ==> spec_is_ws(s[j]),
        k == s.len() || !spec_is_ws(s[k]),
    ensures
        spec_skip_ws(s) == s.subrange(k, s.len() as int),
    decreases k,
{
    if k == 0 {
        assert(spec_skip_ws(s) =~= s.subrange(0, s.len() as int));
    } else {
        lemma_skip_ws_at(s.drop_first(), k - 1);
        assert(s.drop_first().subrange(k - 1, s.drop_first().len() as int) =~= s.subrange(
            k,
            s.len() as int,
        ));
    }
}

/// When the first `k` characters of `s` are not whitespace and the next one
/// (if any) is, the leading token is exactly the prefix of length `k`.
proof fn lemma_take_token_at(s: Seq<char>, k: int)
    requires
        0 <= k <= s.len(),
        forall|j: int| 0 <= j < k ==> !spec_is_ws(s[j]),
        k == s.len() || spec_is_ws(s[k]),
    ensures
        spec_take_token(s) == s.subrange(0, k),
    decreases k,
{
    if k == 0 {
        assert(spec_take_token(s) =~= s.subrange(0, 0));
    } else {
        lemma_take_token_at(s.drop_first(), k - 1);
        assert(seq![s[0]] + s.drop_first().subrange(0, k - 1) =~= s.subrange(0, k));
    }
}

/// How many elements of `s` equal `x`.
pub open spec fn count_eq(s: Seq<Seq<Seq<char>>>, x: Seq<Seq<char>>) -> int
    decreases s.len(),
{
    if s.len() == 0 {
        0
    } else {
        count_eq(s.drop_last(), x) + if s.last() == x {
            1int
        } else {
            0int
        }
    }
}

/// A well-formed sequential pattern over the given windows: its command list
/// is one of the windows, its occurrence count is exact, it clears the
/// occurrence floor and its confidence follows the sequence formula.
pub open spec fn valid_sequential_pattern(
    p: Pattern,
    windows: Seq<Seq<Seq<char>>>,
    window_size: int,
) -> bool {
    &&& p.pattern_type == PatternType::Sequential
    &&& p.project_path is None
    &&& windows.contains(p.commands.deep_view())
    &&& p.occurrences == count_eq(windows, p.commands.deep_view())
    &&& p.occurrences >= MIN_PATTERN_OCCURRENCES
    &&& p.confidence == spec_sequence_confidence(p.occurrences as int, window_size)
}

/// Every window recurring at least `MIN_PATTERN_OCCURRENCES` times is
/// represented among the patterns.
pub open spec fn frequent_windows_present(
    patterns: Seq<Pattern>,
    windows: Seq<Seq<Seq<char>>>,
) -> bool {
    forall|i: int|
        0 <= i < windows.len() && count_eq(windows, #[trigger] windows[i])
            >= MIN_PATTERN_OCCURRENCES ==> has_pattern_for(patterns, windows[i])
}

/// The texts of the commands whose category is `cat`, in history order.
pub open spec fn member_texts(commands: Seq<Command>, cat: Seq<char>) -> Seq<Seq<char>>
    decreases commands.len(),
{
    if commands.len() == 0 {
        Seq::empty()
    } else {
        member_texts(commands.drop_last(), cat) + if spec_category(commands.last().command@)
            == cat {
            seq![commands.last().command@]
        } else {
            Seq::empty()
        }
    }
}

/// How many commands fall in category `cat`.
pub open spec fn member_count(commands: Seq<Command>, cat: Seq<char>) -> int
    decreases commands.len(),
{
    if commands.len() == 0 {
        0
    } else {
        member_count(commands.drop_last(), cat) + if spec_category(commands.last().command@)
            == cat {
            1int
        } else {
            0int
        }
    }
}

/// The summed usage count of the commands in category `cat`.
pub open spec fn category_usage(commands: Seq<Command>, cat: Seq<char>) -> int
    decreases commands.len(),
{
    if commands.len() == 0 {
        0
    } else {
        category_usage(commands.drop_last(), cat) + if spec_category(commands.last().command@)
            == cat {
            commands.last().usage_count as int
        } else {
            0int
        }
    }
}

/// Confidence of a frequency pattern: `min(average_usage / 20, 0.95)` in
/// fixed point, where the average is `total / count`.
pub open spec fn spec_frequency_confidence(total: int, count: int) -> int {
    let c = total * 50_000 / count;
    if c > 950_000 {
        950_000int
    } else {
        c
    }
}

/// The stored scope of a pattern matches the requested one.
pub open spec fn scope_matches(project_path: Option<String>, scope: Option<Seq<char>>) -> bool {
    match (project_path, scope) {
        (Option::None, Option::None) => true,
        (Option::Some(a), Option::Some(b)) => a@ == b,
        _ => false,
    }
}

/// The requested scope as a character sequence.
pub open spec fn opt_str_view(scope: Option<&str>) -> Option<Seq<char>> {
    match scope {
        Option::None => Option::None,
        Option::Some(s) => Option::Some(s@),
    }
}

/// A well-formed frequency pattern over the fetched history: its command
/// list is exactly the member list of one category with at least 3 members,
/// its occurrence count is the summed usage of that category, and its
/// confidence follows the frequency formula and clears `MIN_CONFIDENCE`.
pub open spec fn valid_frequency_pattern(
    p: Pattern,
    commands: Seq<Command>,
    scope: Option<Seq<char>>,
) -> bool {
    &&& p.pattern_type == PatternType::Frequency
    &&& p.commands.deep_view().len() >= 1
    &&& {
        let cat = spec_category(p.commands.deep_view()[0]);
        &&& p.commands.deep_view() == member_texts(commands, cat)
        &&& member_count(commands, cat) >= 3
        &&& p.occurrences == category_usage(commands, cat)
        &&& p.confidence == spec_frequency_confidence(
            category_usage(commands, cat),
            member_count(commands, cat),
        )
        &&& p.confidence >= MIN_CONFIDENCE
    }
    &&& scope_matches(p.project_path, scope)
}

/// Every category with at least 3 members and a qualifying confidence is
/// represented among the patterns.
pub open spec fn frequent_categories_present(
    patterns: Seq<Pattern>,
    commands: Seq<Command>,
) -> bool {
    forall|i: int|
        0 <= i < commands.len() && member_count(
            commands,
            spec_category((#[trigger] commands[i]).command@),
        ) >= 3 && spec_frequency_confidence(
            category_usage(commands, spec_category(commands[i].command@)),
            member_count(commands, spec_category(commands[i].command@)),
        ) >= MIN_CONFIDENCE ==> has_pattern_for(
            patterns,
            member_texts(commands, spec_category(commands[i].command@)),
        )
}

/// The member list of a category is as long as its member count, and every
/// member text belongs to that category.
proof fn lemma_member_texts_props(commands: Seq<Command>, cat: Seq<char>)
    ensures
        member_texts(commands, cat).len() == member_count(commands, cat),
        forall|t: int|
            0 <= t < member_texts(commands, cat).len() ==> spec_category(
                #[trigger] member_texts(commands, cat)[t],
            ) == cat,
    decreases commands.len(),
{
    if commands.len() > 0 {
        lemma_member_texts_props(commands.drop_last(), cat);
    }
}

/// Some pattern in the list carries exactly this command list.
pub open spec fn has_pattern_for(patterns: Seq<Pattern>, window: Seq<Seq<char>>) -> bool {
    exists|k: int|
        0 <= k < patterns.len() && (#[trigger] patterns[k]).commands.deep_view() == window
}

/// A sequential pattern valid for one of the mined window sizes 2 to 5.
pub open spec fn valid_sequential_for_some_window(p: Pattern, texts: Seq<Seq<char>>) -> bool {
    exists|w: int| 2 <= w <= 5 && valid_sequential_pattern(p, windows_of(texts, w), w)
}

/// The pattern miner. It consumes pre-fetched histories and produces scored
/// pattern candidates; all store traffic is the caller's business.
pub struct PatternDetector;

impl PatternDetector {
    /// Create a new pattern detector.
    pub fn new() -> (r: PatternDetector) {
        PatternDetector
    }

    /// The category of a command: its first whitespace-delimited token.
    pub fn extract_category(&self, command: &str) -> (r: String)
        ensures
            r@ == spec_category(command@),
    {
        let n: usize = command.unicode_len();
        let mut start: usize = 0;
        while start < n && is_ws(command.get_char(start))
            invariant
                n == command@.len(),
                0 <= start <= n,
                forall|j: int| 0 <= j < start ==> spec_is_ws(command@[j]),
            decreases n - start,
        {
            start += 1;
        }
        if start == n {
            proof {
                lemma_skip_ws_at(command@, n as int);
                assert(spec_take_token(command@.subrange(n as int, n as int)) =~= Seq::empty());
            }
            return "other".to_owned();
        }
        let mut end: usize = start;
        while end < n && !is_ws(command.get_char(end))
            invariant
                n == command@.len(),
                0 <= start <= end <= n,
                start < n,
                !spec_is_ws(command@[start as int]),
                forall|j: int| start <= j < end ==> !spec_is_ws(command@[j]),
            decreases n - end,
        {
            end += 1;
        }
        proof {
            lemma_skip_ws_at(command@, start as int);
            let suffix = command@.subrange(start as int, n as int);
            lemma_take_token_at(suffix, end - start);
            assert(suffix.subrange(0, end - start) =~= command@.subrange(
                start as int,
                end as int,
            ));
            assert(end > start);
        }
        let token = command.substring_char(start, end);
        token.to_owned()
    }

    /// Confidence of a sequential pattern; grows with occurrences and with
    /// window length, capped at 1.0 in fixed point.
    pub fn calculate_sequence_confidence(&self, occurrences: u64, window_size: usize) -> (r: u64)
        ensures
            r == spec_sequence_confidence(occurrences as int, window_size as int),
            r <= 1_000_000,
    {
        let base: u64 = if occurrences >= 7 {
            700_000
        } else {
            occurrences * 100_000
        };
        let bonus: u64 = if window_size >= 3 {
            300_000
        } else {
            (window_size as u64) * 100_000
        };
        base + bonus
    }

    /// All contiguous windows of `window_size` commands over the fetched
    /// history, in order, as lists of command texts.
    pub fn extract_sequences(&self, commands: &Vec<Command>, window_size: usize) -> (r: Vec<
        Vec<String>,
    >)
        requires
            1 <= window_size,
        ensures
            r.deep_view() == windows_of(texts_of(commands@), window_size as int),
    {
        let n = commands.len();
        let mut r: Vec<Vec<String>> = Vec::new();
        if n < window_size {
            proof {
                assert(r.deep_view() =~= windows_of(texts_of(commands@), window_size as int));
            }
            return r;
        }
        let count: usize = n - window_size + 1;
        let mut i: usize = 0;
        while i < count
            invariant
                n == commands@.len(),
                1 <= window_size <= n,
                count == n - window_size + 1,
                0 <= i <= count,
                r@.len() == i,
                forall|k: int| 0 <= k < i ==> r@[k].deep_view() =~= texts_of(commands@).subrange(
                    k,
                    k + window_size,
                ),
            decreases count - i,
        {
            let mut window: Vec<String> = Vec::new();
            let mut j: usize = 0;
            while j < window_size
                invariant
                    n == commands@.len(),
                    1 <= window_size <= n,
                    i + window_size <= n,
                    0 <= j <= window_size,
                    window@.len() == j,
                    forall|t: int| 0 <= t < j ==> window@[t]@ == commands@[i + t].command@,
                decreases window_size - j,
            {
                window.push(commands[i + j].command.clone());
                j += 1;
            }
            proof {
                assert(window.deep_view() =~= texts_of(commands@).subrange(
                    i as int,
                    i + window_size,
                ));
            }
            r.push(window);
            i += 1;
        }
        proof {
            assert(r.deep_view() =~~= windows_of(texts_of(commands@), window_size as int));
        }
        r
    }

    /// How many of the extracted windows equal `target`, compared as lists
    /// of command texts.
    fn count_matches(&self, sequences: &Vec<Vec<String>>, target: &Vec<String>) -> (r: u64)
        ensures
            r == count_eq(sequences.deep_view(), target.deep_view()),
    {
        let n = sequences.len();
        let mut cnt: u64 = 0;
        let mut i: usize = 0;
        while i < n
            invariant
                n == sequences@.len(),
                0 <= i <= n,
                cnt <= i,
                cnt == count_eq(sequences.deep_view().subrange(0, i as int), target.deep_view()),
            decreases n - i,
        {
            proof {
                let sdv = sequences.deep_view();
                assert(sdv.subrange(0, i + 1).drop_last() =~= sdv.subrange(0, i as int));
                assert(sdv.subrange(0, i + 1).last() == sdv[i as int]);
            }
            if crate::strutil::string_lists_equal(&sequences[i], target) {
                cnt = cnt + 1;
            }
            i += 1;
        }
        proof {
            assert(sequences.deep_view().subrange(0, n as int) =~= sequences.deep_view());
        }
        cnt
    }

    /// Does the window at index `i` already occur at an earlier index?
    fn appears_before(&self, sequences: &Vec<Vec<String>>, i: usize) -> (r: bool)
        requires
            i < sequences@.len(),
        ensures
            r == exists|j: int|
                0 <= j < i && #[trigger] sequences.deep_view()[j]
                    == sequences.deep_view()[i as int],
    {
        let mut j: usize = 0;
        while j < i
            invariant
                i < sequences@.len(),
                0 <= j <= i,
                forall|t: int|
                    0 <= t < j ==> #[trigger] sequences.deep_view()[t]
                        != sequences.deep_view()[i as int],
            decreases i - j,
        {
            if crate::strutil::string_lists_equal(&sequences[j], &sequences[i]) {
                proof {
                    assert(sequences.deep_view()[j as int] == sequences.deep_view()[i as int]);
                }
                return true;
            }
            j += 1;
        }
        false
    }

    /// Keep each distinct window that recurs at least
    /// `MIN_PATTERN_OCCURRENCES` times, as one sequential pattern with its
    /// exact occurrence count and confidence. Every qualifying window is
    /// represented exactly once.
    #[verifier::rlimit(60)]
    pub fn find_frequent_sequences(&self, sequences: Vec<Vec<String>>, window_size: usize) -> (r:
        Vec<Pattern>)
        ensures
            forall|k: int|
                0 <= k < r@.len() ==> valid_sequential_pattern(
                    #[trigger] r@[k],
                    sequences.deep_view(),
                    window_size as int,
                ),
            frequent_windows_present(r@, sequences.deep_view()),
            forall|k1: int, k2: int|
                0 <= k1 < k2 < r@.len() ==> r@[k1].commands.deep_view()
                    != r@[k2].commands.deep_view(),
    {
        let n = sequences.len();
        let mut out: Vec<Pattern> = Vec::new();
        let mut i: usize = 0;
        while i < n
            invariant
                n == sequences@.len(),
                0 <= i <= n,
                forall|k: int|
                    0 <= k < out@.len() ==> valid_sequential_pattern(
                        #[trigger] out@[k],
                        sequences.deep_view(),
                        window_size as int,
                    ),
                forall|k: int|
                    0 <= k < out@.len() ==> exists|j: int|
                        0 <= j < i && sequences.deep_view()[j] == (
                        #[trigger] out@[k]).commands.deep_view(),
                forall|i0: int|
                    0 <= i0 < i && count_eq(
                        sequences.deep_view(),
                        #[trigger] sequences.deep_view()[i0],
                    ) >= MIN_PATTERN_OCCURRENCES ==> has_pattern_for(
                        out@,
                        sequences.deep_view()[i0],
                    ),
                forall|k1: int, k2: int|
                    0 <= k1 < k2 < out@.len() ==> out@[k1].commands.deep_view()
                        != out@[k2].commands.deep_view(),
            decreases n - i,
        {
            let ghost sdv = sequences.deep_view();
            proof {
                assert(sdv[i as int] == sequences@[i as int].deep_view());
            }
            if !self.appears_before(&sequences, i) {
                let cnt = self.count_matches(&sequences, &sequences[i]);
                proof {
                    assert(cnt == count_eq(sdv, sdv[i as int]));
                }
                if cnt >= MIN_PATTERN_OCCURRENCES {
                    let ghost out0 = out@;
                    let confidence = self.calculate_sequence_confidence(cnt, window_size);
                    let commands = crate::strutil::clone_strings(&sequences[i]);
                    proof {
                        assert(commands.deep_view() =~= sdv[i as int]);
                        assert(sdv.contains(sdv[i as int]));
                        assert forall|k: int| 0 <= k < out@.len() implies (
                        #[trigger] out@[k]).commands.deep_view() != sdv[i as int] by {
                            let j = choose|j: int|
                                0 <= j < i && sequences.deep_view()[j]
                                    == out@[k].commands.deep_view();
                        }
                    }
                    out.push(
                        Pattern {
                            pattern_type: PatternType::Sequential,
                            commands,
                            confidence,
                            occurrences: cnt,
                            project_path: None,
                        },
                    );
                    proof {
                        assert(out@[out@.len() - 1].commands.deep_view() == sdv[i as int]);
                        assert(has_pattern_for(out@, sdv[i as int]));
                        assert forall|w: Seq<Seq<char>>| has_pattern_for(out0, w) implies
                            has_pattern_for(out@, w) by {
                            let k = choose|k: int|
                                0 <= k < out0.len() && (#[trigger] out0[k]).commands.deep_view()
                                    == w;
                            assert(out@[k].commands.deep_view() == w);
                        }
                    }
                }
            } else {
                proof {
                    let j = choose|j: int|
                        0 <= j < i && #[trigger] sequences.deep_view()[j] == sequences.deep_view()[
                            i as int
                        ];
                    assert(count_eq(sdv, sdv[j]) == count_eq(sdv, sdv[i as int]));
                    if count_eq(sdv, sdv[i as int]) >= MIN_PATTERN_OCCURRENCES {
                        assert(has_pattern_for(out@, sdv[j]));
                        let k = choose|k: int|
                            0 <= k < out@.len() && (#[trigger] out@[k]).commands.deep_view()
                                == sdv[j];
                        assert(out@[k].commands.deep_view() == sdv[i as int]);
                        assert(has_pattern_for(out@, sdv[i as int]));
                    }
                }
            }
            i += 1;
        }
        out
    }

    /// Mine the history for one window size: extract all windows, keep the
    /// frequent ones.
    fn detect_for_window(&self, commands: &Vec<Command>, window_size: usize) -> (r: Vec<Pattern>)
        requires
            1 <= window_size,
        ensures
            forall|k: int|
                0 <= k < r@.len() ==> valid_sequential_pattern(
                    #[trigger] r@[k],
                    windows_of(texts_of(commands@), window_size as int),
                    window_size as int,
                ),
            frequent_windows_present(r@, windows_of(texts_of(commands@), window_size as int)),
    {
        let sequences = self.extract_sequences(commands, window_size);
        self.find_frequent_sequences(sequences, window_size)
    }

    /// Detect sequential patterns over a most-recent-first history by sliding
    /// windows of 2 to 5 commands over it, in the order the store returned it.
    /// A history of fewer than 3 events yields nothing. Every window of each
    /// mined size that recurs at least `MIN_PATTERN_OCCURRENCES` times is
    /// reported exactly once, with its exact occurrence count and confidence.
    pub fn detect_sequential_patterns(&self, commands: &Vec<Command>) -> (r: Vec<Pattern>)
        ensures
            forall|k: int|
                0 <= k < r@.len() ==> valid_sequential_for_some_window(
                    #[trigger] r@[k],
                    texts_of(commands@),
                ),
            commands@.len() < 3 ==> r@.len() == 0,
            commands@.len() >= 3 ==> frequent_windows_present(
                r@,
                windows_of(texts_of(commands@), 2),
            ),
            commands@.len() >= 3 ==> frequent_windows_present(
                r@,
                windows_of(texts_of(commands@), 3),
            ),
            commands@.len() >= 3 ==> frequent_windows_present(
                r@,
                windows_of(texts_of(commands@), 4),
            ),
            commands@.len() >= 3 ==> frequent_windows_present(
                r@,
                windows_of(texts_of(commands@), 5),
            ),
    {
        let ghost texts = texts_of(commands@);
        let mut out: Vec<Pattern> = Vec::new();
        if commands.len() < 3 {
            return out;
        }
        let mut p2 = self.detect_for_window(commands, 2);
        let mut p3 = self.detect_for_window(commands, 3);
        let mut p4 = self.detect_for_window(commands, 4);
        let mut p5 = self.detect_for_window(commands, 5);
        let ghost g2 = p2@;
        let ghost g3 = p3@;
        let ghost g4 = p4@;
        let ghost g5 = p5@;
        out.append(&mut p2);
        out.append(&mut p3);
        out.append(&mut p4);
        out.append(&mut p5);
        proof {
            assert(out@ =~= g2 + g3 + g4 + g5);
            assert forall|k: int| 0 <= k < out@.len() implies valid_sequential_for_some_window(
                #[trigger] out@[k],
                texts,
            ) by {
                if k < g2.len() {
                    assert(out@[k] == g2[k]);
                    assert(valid_sequential_pattern(out@[k], windows_of(texts, 2), 2));
                } else if k < g2.len() + g3.len() {
                    assert(out@[k] == g3[k - g2.len()]);
                    assert(valid_sequential_pattern(out@[k], windows_of(texts, 3), 3));
                } else if k < g2.len() + g3.len() + g4.len() {
                    assert(out@[k] == g4[k - g2.len() - g3.len()]);
                    assert(valid_sequential_pattern(out@[k], windows_of(texts, 4), 4));
                } else {
                    assert(out@[k] == g5[k - g2.len() - g3.len() - g4.len()]);
                    assert(valid_sequential_pattern(out@[k], windows_of(texts, 5), 5));
                }
            }
            lemma_frequent_windows_extend(g2, out@, windows_of(texts, 2), 0);
            lemma_frequent_windows_extend(g3, out@, windows_of(texts, 3), g2.len() as int);
            lemma_frequent_windows_extend(g4, out@, windows_of(texts, 4), (g2.len()
                + g3.len()) as int);
            lemma_frequent_windows_extend(g5, out@, windows_of(texts, 5), (g2.len() + g3.len()
                + g4.len()) as int);
        }
        out
    }

    /// Does any earlier command fall in the same category as command `i`?
    fn category_appears_before(&self, commands: &Vec<Command>, i: usize, cat: &str) -> (r: bool)
        requires
            i < commands@.len(),
            cat@ == spec_category(commands@[i as int].command@),
        ensures
            r == exists|j: int|
                0 <= j < i && spec_category((#[trigger] commands@[j]).command@) == spec_category(
                    commands@[i as int].command@,
                ),
    {
        let mut j: usize = 0;
        while j < i
            invariant
                i < commands@.len(),
                cat@ == spec_category(commands@[i as int].command@),
                0 <= j <= i,
                forall|t: int|
                    0 <= t < j ==> spec_category((#[trigger] commands@[t]).command@)
                        != spec_category(commands@[i as int].command@),
            decreases i - j,
        {
            let c = self.extract_category(commands[j].command.as_str());
            if crate::strutil::str_eq(c.as_str(), cat) {
                return true;
            }
            j += 1;
        }
        false
    }

    /// Collect the member texts, summed usage and member count of one
    /// category over the fetched history.
    fn collect_category(&self, commands: &Vec<Command>, cat: &str) -> (r: (Vec<String>, u64, usize))
        requires
            forall|t: int| 0 <= t < commands@.len() ==> (#[trigger] commands@[t]).usage_count >= 1,
            commands@.len() <= 0x1000_0000,
        ensures
            r.0.deep_view() == member_texts(commands@, cat@),
            r.1 == category_usage(commands@, cat@),
            r.2 == member_count(commands@, cat@),
    {
        let n = commands.len();
        let mut texts: Vec<String> = Vec::new();
        let mut total: u64 = 0;
        let mut count: usize = 0;
        let mut j: usize = 0;
        while j < n
            invariant
                n == commands@.len(),
                n <= 0x1000_0000,
                forall|t: int|
                    0 <= t < commands@.len() ==> (#[trigger] commands@[t]).usage_count >= 1,
                0 <= j <= n,
                texts.deep_view() == member_texts(commands@.subrange(0, j as int), cat@),
                total == category_usage(commands@.subrange(0, j as int), cat@),
                total <= j * 0x8000_0000,
                count == member_count(commands@.subrange(0, j as int), cat@),
                count <= j,
            decreases n - j,
        {
            proof {
                assert(commands@.subrange(0, j + 1).drop_last() =~= commands@.subrange(
                    0,
                    j as int,
                ));
                assert(commands@.subrange(0, j + 1).last() == commands@[j as int]);
            }
            let c = self.extract_category(commands[j].command.as_str());
            if crate::strutil::str_eq(c.as_str(), cat) {
                texts.push(commands[j].command.clone());
                total = total + commands[j].usage_count as u64;
                count = count + 1;
                proof {
                    assert(texts.deep_view() =~= member_texts(
                        commands@.subrange(0, j + 1),
                        cat@,
                    ));
                }
            } else {
                proof {
                    assert(texts.deep_view() =~= member_texts(
                        commands@.subrange(0, j + 1),
                        cat@,
                    ));
                }
            }
            j += 1;
        }
        proof {
            assert(commands@.subrange(0, n as int) =~= commands@);
        }
        (texts, total, count)
    }

    /// Detect frequency patterns over a most-used-first history: group the
    /// commands by category (first token), and emit one pattern per category
    /// with at least 3 members whose confidence, derived from the average
    /// usage, clears `MIN_CONFIDENCE`. Every qualifying category is
    /// represented exactly once.
    #[verifier::rlimit(60)]
    pub fn detect_frequency_patterns(
        &self,
        commands: &Vec<Command>,
        project_path: Option<&str>,
    ) -> (r: Vec<Pattern>)
        requires
            forall|t: int| 0 <= t < commands@.len() ==> (#[trigger] commands@[t]).usage_count >= 1,
            commands@.len() <= 0x1000_0000,
        ensures
            forall|k: int|
                0 <= k < r@.len() ==> valid_frequency_pattern(
                    #[trigger] r@[k],
                    commands@,
                    opt_str_view(project_path),
                ),
            frequent_categories_present(r@, commands@),
            forall|k1: int, k2: int|
                0 <= k1 < k2 < r@.len() ==> spec_category(r@[k1].commands.deep_view()[0])
                    != spec_category(r@[k2].commands.deep_view()[0]),
    {
        let n = commands.len();
        let mut out: Vec<Pattern> = Vec::new();
        let mut i: usize = 0;
        while i < n
            invariant
                n == commands@.len(),
                n <= 0x1000_0000,
                forall|t: int|
                    0 <= t < commands@.len() ==> (#[trigger] commands@[t]).usage_count >= 1,
                0 <= i <= n,
                forall|k: int|
                    0 <= k < out@.len() ==> valid_frequency_pattern(
                        #[trigger] out@[k],
                        commands@,
                        opt_str_view(project_path),
                    ),
                forall|k: int|
                    0 <= k < out@.len() ==> exists|j: int|
                        0 <= j < i && spec_category((#[trigger] commands@[j]).command@)
                            == spec_category((#[trigger] out@[k]).commands.deep_view()[0]),
                forall|i0: int|
                    0 <= i0 < i && member_count(
                        commands@,
                        spec_category((#[trigger] commands@[i0]).command@),
                    ) >= 3 && spec_frequency_confidence(
                        category_usage(commands@, spec_category(commands@[i0].command@)),
                        member_count(commands@, spec_category(commands@[i0].command@)),
                    ) >= MIN_CONFIDENCE ==> has_pattern_for(
                        out@,
                        member_texts(commands@, spec_category(commands@[i0].command@)),
                    ),
                forall|k1: int, k2: int|
                    0 <= k1 < k2 < out@.len() ==> spec_category(out@[k1].commands.deep_view()[0])
                        != spec_category(out@[k2].commands.deep_view()[0]),
            decreases n - i,
        {
            let ghost cat0 = spec_category(commands@[i as int].command@);
            let cat = self.extract_category(commands[i].command.as_str());
            if !self.category_appears_before(commands, i, cat.as_str()) {
                let (texts, total, count) = self.collect_category(commands, cat.as_str());
                proof {
                    lemma_member_texts_props(commands@, cat0);
                }
                if count >= 3 {
                    let confidence: u64 = {
                        let c: u128 = (total as u128 * 50_000u128) / count as u128;
                        if c > 950_000u128 {
                            950_000u64
                        } else {
                            c as u64
                        }
                    };
                    if confidence >= MIN_CONFIDENCE {
                        let ghost out0 = out@;
                        let stored_scope: Option<String> = match project_path {
                            Option::None => Option::None,
                            Option::Some(s) => Option::Some(s.to_owned()),
                        };
                        out.push(
                            Pattern {
                                pattern_type: PatternType::Frequency,
                                commands: texts,
                                confidence,
                                occurrences: total,
                                project_path: stored_scope,
                            },
                        );
                        proof {
                            let newp = out@[out@.len() - 1];
                            assert(newp.commands.deep_view() == member_texts(commands@, cat0));
                            assert(spec_category(newp.commands.deep_view()[0]) == cat0);
                            assert(valid_frequency_pattern(
                                newp,
                                commands@,
                                opt_str_view(project_path),
                            ));
                            assert(has_pattern_for(out@, member_texts(commands@, cat0)));
                            assert forall|w: Seq<Seq<char>>| has_pattern_for(out0, w) implies
                                has_pattern_for(out@, w) by {
                                let k = choose|k: int|
                                    0 <= k < out0.len() && (
                                    #[trigger] out0[k]).commands.deep_view() == w;
                                assert(out@[k].commands.deep_view() == w);
                            }
                        }
                    }
                }
            } else {
                proof {
                    let j = choose|j: int|
                        0 <= j < i && spec_category((#[trigger] commands@[j]).command@)
                            == spec_category(commands@[i as int].command@);
                    if member_count(commands@, cat0) >= 3 && spec_frequency_confidence(
                        category_usage(commands@, cat0),
                        member_count(commands@, cat0),
                    ) >= MIN_CONFIDENCE {
                        assert(spec_category(commands@[j].command@) == cat0);
                        assert(has_pattern_for(out@, member_texts(commands@, cat0)));
                    }
                }
            }
            i += 1;
        }
        out
    }

    /// Run both detection passes: sequential patterns over the most-recent
    /// history, then frequency patterns over the most-used history. Their
    /// results are concatenated in that order; completeness of both passes
    /// carries over.
    pub fn detect_patterns(
        &self,
        recent: &Vec<Command>,
        most_used: &Vec<Command>,
        project_path: Option<&str>,
    ) -> (r: Vec<Pattern>)
        requires
            forall|t: int| 0 <= t < most_used@.len() ==> (#[trigger] most_used@[t]).usage_count
                >= 1,
            most_used@.len() <= 0x1000_0000,
        ensures
            forall|k: int|
                0 <= k < r@.len() ==> valid_sequential_for_some_window(
                    #[trigger] r@[k],
                    texts_of(recent@),
                ) || valid_frequency_pattern(r@[k], most_used@, opt_str_view(project_path)),
            recent@.len() >= 3 ==> frequent_windows_present(
                r@,
                windows_of(texts_of(recent@), 2),
            ),
            recent@.len() >= 3 ==> frequent_windows_present(
                r@,
                windows_of(texts_of(recent@), 3),
            ),
            recent@.len() >= 3 ==> frequent_windows_present(
                r@,
                windows_of(texts_of(recent@), 4),
            ),
            recent@.len() >= 3 ==> frequent_windows_present(
                r@,
                windows_of(texts_of(recent@), 5),
            ),
            frequent_categories_present(r@, most_used@),
    {
        let mut out = self.detect_sequential_patterns(recent);
        let mut freq = self.detect_frequency_patterns(most_used, project_path);
        let ghost gs = out@;
        let ghost gf = freq@;
        out.append(&mut freq);
        proof {
            assert(out@ =~= gs + gf);
            assert forall|k: int| 0 <= k < out@.len() implies valid_sequential_for_some_window(
                #[trigger] out@[k],
                texts_of(recent@),
            ) || valid_frequency_pattern(out@[k], most_used@, opt_str_view(project_path)) by {
                if k < gs.len() {
                    assert(out@[k] == gs[k]);
                } else {
                    assert(out@[k] == gf[k - gs.len()]);
                }
            }
            if recent@.len() >= 3 {
                lemma_frequent_windows_extend(gs, out@, windows_of(texts_of(recent@), 2), 0);
                lemma_frequent_windows_extend(gs, out@, windows_of(texts_of(recent@), 3), 0);
                lemma_frequent_windows_extend(gs, out@, windows_of(texts_of(recent@), 4), 0);
                lemma_frequent_windows_extend(gs, out@, windows_of(texts_of(recent@), 5), 0);
            }
            assert forall|i: int|
                0 <= i < most_used@.len() && member_count(
                    most_used@,
                    spec_category((#[trigger] most_used@[i]).command@),
                ) >= 3 && spec_frequency_confidence(
                    category_usage(most_used@, spec_category(most_used@[i].command@)),
                    member_count(most_used@, spec_category(most_used@[i].command@)),
                ) >= MIN_CONFIDENCE implies has_pattern_for(
                out@,
                member_texts(most_used@, spec_category(most_used@[i].command@)),
            ) by {
                let w = member_texts(most_used@, spec_category(most_used@[i].command@));
                assert(has_pattern_for(gf, w));
                let k = choose|k: int|
                    0 <= k < gf.len() && (#[trigger] gf[k]).commands.deep_view() == w;
                assert(out@[gs.len() + k].commands.deep_view() == w);
            }
        }
        out
    }

    /// The patterns that qualify for persistence: those whose confidence
    /// reaches `MIN_CONFIDENCE`, in order, as fresh copies.
    pub fn patterns_to_store(&self, patterns: &Vec<Pattern>) -> (r: Vec<Pattern>)
        ensures
            r@.len() == qualifying_patterns(patterns@).len(),
            forall|k: int|
                0 <= k < r@.len() ==> pattern_view_eq(
                    #[trigger] r@[k],
                    qualifying_patterns(patterns@)[k],
                ),
    {
        let n = patterns.len();
        let mut out: Vec<Pattern> = Vec::new();
        let mut i: usize = 0;
        while i < n
            invariant
                n == patterns@.len(),
                0 <= i <= n,
                out@.len() == qualifying_patterns(patterns@.subrange(0, i as int)).len(),
                forall|k: int|
                    0 <= k < out@.len() ==> pattern_view_eq(
                        #[trigger] out@[k],
                        qualifying_patterns(patterns@.subrange(0, i as int))[k],
                    ),
            decreases n - i,
        {
            proof {
                assert(patterns@.subrange(0, i + 1).drop_last() =~= patterns@.subrange(
                    0,
                    i as int,
                ));
                assert(patterns@.subrange(0, i + 1).last() == patterns@[i as int]);
            }
            if patterns[i].confidence >= MIN_CONFIDENCE {
                out.push(patterns[i].clone());
            }
            i += 1;
        }
        proof {
            assert(patterns@.subrange(0, n as int) =~= patterns@);
        }
        out
    }

    /// The metadata text stored beside a persisted pattern: a JSON object
    /// carrying the detection timestamp (supplied by the caller) and the
    /// detection method. The timestamp is expected to be plain RFC 3339 text
    /// with nothing to escape.
    pub fn pattern_metadata_json(&self, detected_at: &str) -> (r: String)
        ensures
            r@ == "{\"detected_at\":\""@ + detected_at@ + "\",\"method\":\"auto\"}"@,
    {
        let mut r = String::new();
        r.append("{\"detected_at\":\"");
        r.append(detected_at);
        r.append("\",\"method\":\"auto\"}");
        proof {
            assert(r@ =~= "{\"detected_at\":\""@ + detected_at@
                + "\",\"method\":\"auto\"}"@);
        }
        r
    }
}

/// A pattern with no store scope, view for view: same kind, same command
/// texts, same confidence and occurrences, same scope text.
pub open spec fn pattern_view_eq(a: Pattern, b: Pattern) -> bool {
    &&& a.pattern_type == b.pattern_type
    &&& a.commands.deep_view() == b.commands.deep_view()
    &&& a.confidence == b.confidence
    &&& a.occurrences == b.occurrences
    &&& opt_string_view(a.project_path) == opt_string_view(b.project_path)
}

/// The stored scope as a character sequence.
pub open spec fn opt_string_view(scope: Option<String>) -> Option<Seq<char>> {
    match scope {
        Option::None => Option::None,
        Option::Some(s) => Option::Some(s@),
    }
}

/// The subsequence of patterns that qualify for persistence: those with
/// `confidence >= MIN_CONFIDENCE`, in order.
pub open spec fn qualifying_patterns(patterns: Seq<Pattern>) -> Seq<Pattern>
    decreases patterns.len(),
{
    if patterns.len() == 0 {
        Seq::empty()
    } else if patterns.last().confidence >= MIN_CONFIDENCE {
        qualifying_patterns(patterns.drop_last()).push(patterns.last())
    } else {
        qualifying_patterns(patterns.drop_last())
    }
}

/// Law: a window of at least 3 commands that recurs at least 3 times always
/// reaches the persistence threshold `MIN_CONFIDENCE`.
pub proof fn lemma_sequence_confidence_threshold(occurrences: int, window_size: int)
    requires
        occurrences >= 3,
        window_size >= 3,
    ensures
        spec_sequence_confidence(occurrences, window_size) >= MIN_CONFIDENCE,
{
}

/// Law: a category of at least one member whose summed usage is at least 12
/// per member (average usage 12 or more) reaches the persistence threshold
/// `MIN_CONFIDENCE`. An average of 10, for instance, only reaches 0.5.
pub proof fn lemma_frequency_confidence_threshold(total: int, count: int)
    requires
        count >= 1,
        total >= 12 * count,
    ensures
        spec_frequency_confidence(total, count) >= MIN_CONFIDENCE,
{
    vstd::arithmetic::mul::lemma_mul_inequality(12 * count, total, 50_000);
    vstd::arithmetic::mul::lemma_mul_is_associative(12, count, 50_000);
    vstd::arithmetic::div_mod::lemma_div_is_ordered(600_000 * count, total * 50_000, count);
    vstd::arithmetic::div_mod::lemma_div_multiples_vanish(600_000, count);
}

/// Law: a well-formed sequential pattern over windows of at least 3 commands
/// always qualifies for persistence.
pub proof fn lemma_sequential_pattern_qualifies(
    p: Pattern,
    windows: Seq<Seq<Seq<char>>>,
    window_size: int,
)
    requires
        valid_sequential_pattern(p, windows, window_size),
        window_size >= 3,
    ensures
        p.confidence >= MIN_CONFIDENCE,
{
    lemma_sequence_confidence_threshold(p.occurrences as int, window_size);
}

/// Law: when some command's category has at least 3 members whose summed
/// usage is at least 12 per member, any pattern list that carries the
/// miner's completeness guarantee represents that category.
pub proof fn lemma_frequent_category_is_reported(
    patterns: Seq<Pattern>,
    commands: Seq<Command>,
    i: int,
)
    requires
        frequent_categories_present(patterns, commands),
        0 <= i < commands.len(),
        member_count(commands, spec_category(commands[i].command@)) >= 3,
        category_usage(commands, spec_category(commands[i].command@)) >= 12 * member_count(
            commands,
            spec_category(commands[i].command@),
        ),
    ensures
        has_pattern_for(patterns, member_texts(commands, spec_category(commands[i].command@))),
{
    lemma_frequency_confidence_threshold(
        category_usage(commands, spec_category(commands[i].command@)),
        member_count(commands, spec_category(commands[i].command@)),
    );
}

/// A pattern list embedded (at `offset`) in a larger list still represents
/// every frequent window it represented on its own.
proof fn lemma_frequent_windows_extend(
    part: Seq<Pattern>,
    whole: Seq<Pattern>,
    windows: Seq<Seq<Seq<char>>>,
    offset: int,
)
    requires
        frequent_windows_present(part, windows),
        0 <= offset,
        offset + part.len() <= whole.len(),
        forall|k: int| 0 <= k < part.len() ==> whole[offset + k] == #[trigger] part[k],
    ensures
        frequent_windows_present(whole, windows),
{
    assert forall|i: int|
        0 <= i < windows.len() && count_eq(windows, #[trigger] windows[i])
            >= MIN_PATTERN_OCCURRENCES implies has_pattern_for(whole, windows[i]) by {
        assert(has_pattern_for(part, windows[i]));
        let k = choose|k: int|
            0 <= k < part.len() && (#[trigger] part[k]).commands.deep_view() == windows[i];
        assert(whole[offset + k].commands.deep_view() == windows[i]);
    }
}

} // verus!
