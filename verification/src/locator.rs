//! Finding an interpreter that can run the service.
//!
//! The locator names one probe at a time; the caller runs it and reports how
//! it went. Probing stops at the first candidate that answers.

use vstd::prelude::*;
use vstd::string::{StrSliceExecFns, StringExecFns};

verus! {

/// How many fixed candidates are tried before the system lookup.
pub const CANDIDATE_COUNT: usize = 5;

/// The fixed candidates, in the order in which they are tried.
pub open spec fn candidates() -> Seq<Seq<char>> {
    seq![
        "python3"@,
        "python"@,
        "/usr/bin/python3"@,
        "/usr/local/bin/python3"@,
        "/opt/homebrew/bin/python3"@,
    ]
}

/// The argument of the version check run on a candidate.
pub open spec fn version_flag() -> Seq<char> {
    "--version"@
}

/// The program of the system lookup.
pub open spec fn lookup_program() -> Seq<char> {
    "which"@
}

/// The name that the system lookup is asked for.
pub open spec fn lookup_name() -> Seq<char> {
    "python3"@
}

/// A probe for the caller to run.
#[derive(Debug, Clone, Copy, PartialEq, Eq)]
pub enum Probe {
    /// Run the candidate with this index with the version flag.
    Candidate { index: usize },
    /// Ask the system lookup for the interpreter's path.
    Lookup,
}

/// How a probe went.
#[derive(Debug, Clone, PartialEq, Eq)]
pub enum ProbeOutcome {
    /// The program could not be run.
    NotRun,
    /// The program ran; `success` is its verdict, `stdout` what it wrote to
    /// its standard output.
    Ran { success: bool, stdout: String },
}

impl ProbeOutcome {
    /// Whether the probe answered: the program ran and reported success.
    pub open spec fn answered(self) -> bool {
        self matches ProbeOutcome::Ran { success, .. } && success
    }

    /// What the probe wrote to its standard output; empty for one that did
    /// not run.
    pub open spec fn spec_stdout(self) -> Seq<char> {
        match self {
            ProbeOutcome::Ran { stdout, .. } => stdout@,
            ProbeOutcome::NotRun => Seq::empty(),
        }
    }
}

/// What the locator decided after a probe.
#[derive(Debug, Clone, PartialEq, Eq)]
pub enum Located {
    /// Run this probe next.
    Next(Probe),
    /// This executable runs the service.
    Found(String),
    /// Every candidate and the lookup failed.
    NotFound,
}

/// Whether `c` is white space in the sense of the Unicode property of that
/// name.
pub open spec fn is_white_space(c: char) -> bool {
    ||| '\u{9}' <= c <= '\u{d}'
    ||| c == ' '
    ||| c == '\u{85}'
    ||| c == '\u{a0}'
    ||| c == '\u{1680}'
    ||| '\u{2000}' <= c <= '\u{200a}'
    ||| c == '\u{2028}'
    ||| c == '\u{2029}'
    ||| c == '\u{202f}'
    ||| c == '\u{205f}'
    ||| c == '\u{3000}'
}

/// How many characters at the start of `s` are white space.
pub open spec fn leading_space(s: Seq<char>) -> nat
    decreases s.len(),
{
    if s.len() > 0 && is_white_space(s[0]) {
        1 + leading_space(s.drop_first())
    } else {
        0
    }
}

/// How many characters at the end of `s` are white space.
pub open spec fn trailing_space(s: Seq<char>) -> nat
    decreases s.len(),
{
    if s.len() > 0 && is_white_space(s.last()) {
        1 + trailing_space(s.drop_last())
    } else {
        0
    }
}

/// `s` without the white space at its start and at its end.
pub open spec fn trimmed(s: Seq<char>) -> Seq<char> {
    let lead = leading_space(s);
    if lead == s.len() {
        Seq::empty()
    } else {
        s.subrange(lead as int, s.len() - trailing_space(s))
    }
}

/// What the locator decides after a probe, over plain values.
pub enum Verdict {
    /// Run this probe next.
    Next(Probe),
    /// The executable with this name or path runs the service.
    Found(Seq<char>),
    /// Every candidate and the lookup failed.
    NotFound,
}

/// The probe that follows a failed `probe`, where there is one.
pub open spec fn following(probe: Probe) -> Option<Probe> {
    match probe {
        Probe::Candidate { index } => if index + 1 < CANDIDATE_COUNT {
            Some(Probe::Candidate { index: (index + 1) as usize })
        } else if index < CANDIDATE_COUNT {
            Some(Probe::Lookup)
        } else {
            None
        },
        Probe::Lookup => None,
    }
}

/// What the locator decides when `probe` answered or not as `answered` says
/// and wrote `stdout`.
pub open spec fn verdict(probe: Probe, answered: bool, stdout: Seq<char>) -> Verdict {
    match probe {
        Probe::Candidate { index } => if index >= CANDIDATE_COUNT {
            Verdict::NotFound
        } else if answered {
            Verdict::Found(candidates()[index as int])
        } else {
            Verdict::Next(following(probe)->0)
        },
        Probe::Lookup => if answered && trimmed(stdout).len() > 0 {
            Verdict::Found(trimmed(stdout))
        } else {
            Verdict::NotFound
        },
    }
}

/// The program and the single argument of `probe`; none for a candidate
/// index that names no candidate.
pub open spec fn command_line(probe: Probe) -> Option<(Seq<char>, Seq<char>)> {
    match probe {
        Probe::Candidate { index } => if index < CANDIDATE_COUNT {
            Some((candidates()[index as int], version_flag()))
        } else {
            None
        },
        Probe::Lookup => Some((lookup_program(), lookup_name())),
    }
}

/// How many probes can still follow `probe`.
pub open spec fn probes_left(probe: Probe) -> nat {
    match probe {
        Probe::Candidate { index } => if index < CANDIDATE_COUNT {
            (CANDIDATE_COUNT - index) as nat
        } else {
            0
        },
        Probe::Lookup => 0,
    }
}

/// What a search gives that goes on from `probe`, when the candidates answer
/// as `answers` says (one entry per candidate, in order) and the lookup, if
/// it succeeds, writes `lookup`.
pub open spec fn search(probe: Probe, answers: Seq<bool>, lookup: Option<Seq<char>>) -> Option<
    Seq<char>,
>
    recommends
        answers.len() == CANDIDATE_COUNT,
    decreases probes_left(probe),
{
    let this = match probe {
        Probe::Candidate { index } => verdict(
            probe,
            index < answers.len() && answers[index as int],
            Seq::empty(),
        ),
        Probe::Lookup => match lookup {
            Some(stdout) => verdict(probe, true, stdout),
            None => verdict(probe, false, Seq::empty()),
        },
    };
    match this {
        Verdict::Next(next) => if probes_left(next) < probes_left(probe) {
            search(next, answers, lookup)
        } else {
            None
        },
        Verdict::Found(path) => Some(path),
        Verdict::NotFound => None,
    }
}

/// The first candidate that answers is the interpreter, whatever the later
/// candidates and the lookup would have said.
pub proof fn lemma_first_answer_wins(
    answers: Seq<bool>,
    lookup: Option<Seq<char>>,
    winner: nat,
    from: nat,
)
    requires
        answers.len() == CANDIDATE_COUNT,
        from <= winner < CANDIDATE_COUNT,
        answers[winner as int],
        forall|i: int| from <= i < winner ==> !answers[i],
    ensures
        search(Probe::Candidate { index: from as usize }, answers, lookup) == Some(
            candidates()[winner as int],
        ),
    decreases winner - from,
{
    if from < winner {
        lemma_first_answer_wins(answers, lookup, winner, from + 1);
    }
}

/// When no candidate answers, the search gives what the lookup wrote, less
/// the white space around it, and nothing if that is empty or the lookup
/// failed.
pub proof fn lemma_lookup_is_last_resort(answers: Seq<bool>, lookup: Option<Seq<char>>, from: nat)
    requires
        answers.len() == CANDIDATE_COUNT,
        from < CANDIDATE_COUNT,
        forall|i: int| from <= i < CANDIDATE_COUNT ==> !answers[i],
    ensures
        search(Probe::Candidate { index: from as usize }, answers, lookup) == match lookup {
            Some(stdout) => if trimmed(stdout).len() > 0 {
                Some(trimmed(stdout))
            } else {
                None
            },
            None => None,
        },
    decreases CANDIDATE_COUNT - from,
{
    if from + 1 < CANDIDATE_COUNT {
        lemma_lookup_is_last_resort(answers, lookup, from + 1);
    } else {
        reveal_with_fuel(search, 2);
    }
}

fn white_space(c: char) -> (b: bool)
    ensures
        b == is_white_space(c),
{
    ('\u{9}' <= c && c <= '\u{d}') || c == ' ' || c == '\u{85}' || c == '\u{a0}' || c
        == '\u{1680}' || ('\u{2000}' <= c && c <= '\u{200a}') || c == '\u{2028}' || c
        == '\u{2029}' || c == '\u{202f}' || c == '\u{205f}' || c == '\u{3000}'
}

proof fn lemma_leading_space(s: Seq<char>, n: nat)
    requires
        n <= s.len(),
        forall|i: int| 0 <= i < n ==> is_white_space(#[trigger] s[i]),
        n == s.len() || !is_white_space(s[n as int]),
    ensures
        leading_space(s) == n,
    decreases n,
{
    if n > 0 {
        let rest = s.drop_first();
        assert forall|i: int| 0 <= i < n - 1 implies is_white_space(#[trigger] rest[i]) by {
            assert(rest[i] == s[i + 1]);
        }
        lemma_leading_space(rest, (n - 1) as nat);
    }
}

proof fn lemma_trailing_space(s: Seq<char>, n: nat)
    requires
        n <= s.len(),
        forall|i: int| s.len() - n <= i < s.len() ==> is_white_space(#[trigger] s[i]),
        n == s.len() || !is_white_space(s[s.len() - n - 1]),
    ensures
        trailing_space(s) == n,
    decreases n,
{
    if n > 0 {
        let rest = s.drop_last();
        assert forall|i: int| rest.len() - (n - 1) <= i < rest.len() implies is_white_space(
            #[trigger] rest[i],
        ) by {
            assert(rest[i] == s[i]);
        }
        lemma_trailing_space(rest, (n - 1) as nat);
    }
}

/// Removes the white space at both ends of `s`.
pub fn trim(s: &str) -> (t: String)
    ensures
        t@ == trimmed(s@),
{
    let len = s.unicode_len();
    let mut start: usize = 0;
    while start < len && white_space(s.get_char(start))
        invariant
            start <= len,
            len == s@.len(),
            forall|i: int| 0 <= i < start ==> is_white_space(#[trigger] s@[i]),
        decreases len - start,
    {
        start += 1;
    }
    proof {
        lemma_leading_space(s@, start as nat);
    }
    if start == len {
        return String::new();
    }
    let mut end: usize = len;
    while end > start && white_space(s.get_char(end - 1))
        invariant
            start < len,
            start <= end <= len,
            len == s@.len(),
            !is_white_space(s@[start as int]),
            forall|i: int| end <= i < len ==> is_white_space(#[trigger] s@[i]),
        decreases end,
    {
        end -= 1;
    }
    proof {
        lemma_trailing_space(s@, (len - end) as nat);
    }
    String::from_str(s.substring_char(start, end))
}

/// The name of the candidate with this index.
pub fn candidate(index: usize) -> (name: Option<&'static str>)
    ensures
        index < CANDIDATE_COUNT ==> name is Some && name->0@ == candidates()[index as int],
        index >= CANDIDATE_COUNT ==> name is None,
{
    if index == 0 {
        Some("python3")
    } else if index == 1 {
        Some("python")
    } else if index == 2 {
        Some("/usr/bin/python3")
    } else if index == 3 {
        Some("/usr/local/bin/python3")
    } else if index == 4 {
        Some("/opt/homebrew/bin/python3")
    } else {
        None
    }
}

impl Probe {
    /// The probe that a search begins with.
    pub fn first() -> (p: Probe)
        ensures
            p == (Probe::Candidate { index: 0 }),
    {
        Probe::Candidate { index: 0 }
    }

    /// The program to run for this probe and its single argument.
    pub fn command(&self) -> (line: Option<(&'static str, &'static str)>)
        ensures
            match line {
                Some((program, argument)) => command_line(*self) == Some((program@, argument@)),
                None => command_line(*self).is_none(),
            },
    {
        match self {
            Probe::Candidate { index } => match candidate(*index) {
                Some(name) => Some((name, "--version")),
                None => None,
            },
            Probe::Lookup => Some(("which", "python3")),
        }
    }

    /// Decides what follows this probe. A probe has answered if its program
    /// ran and reported success. A candidate that answered is the
    /// interpreter; one that did not is followed by the next candidate, the
    /// last one by the system lookup. What the lookup wrote is the
    /// interpreter if the lookup answered and wrote more than white space;
    /// otherwise nothing was found.
    pub fn conclude(&self, outcome: &ProbeOutcome) -> (r: Located)
        ensures
            match verdict(*self, outcome.answered(), outcome.spec_stdout()) {
                Verdict::Found(path) => r matches Located::Found(p) && p@ == path,
                Verdict::NotFound => r is NotFound,
                Verdict::Next(next) => r == Located::Next(next),
            },
    {
        let (answered, stdout) = match outcome {
            ProbeOutcome::Ran { success, stdout } => (*success, stdout.as_str()),
            ProbeOutcome::NotRun => {
                proof {
                    reveal_strlit("");
                }
                assert(""@ =~= Seq::<char>::empty());
                (false, "")
            },
        };
        match self {
            Probe::Candidate { index } => {
                let index = *index;
                if answered {
                    match candidate(index) {
                        Some(name) => Located::Found(String::from_str(name)),
                        None => Located::NotFound,
                    }
                } else if index < CANDIDATE_COUNT - 1 {
                    Located::Next(Probe::Candidate { index: index + 1 })
                } else if index < CANDIDATE_COUNT {
                    Located::Next(Probe::Lookup)
                } else {
                    Located::NotFound
                }
            },
            Probe::Lookup => {
                if !answered {
                    return Located::NotFound;
                }
                let path = trim(stdout);
                if path.as_str().unicode_len() > 0 {
                    Located::Found(path)
                } else {
                    Located::NotFound
                }
            },
        }
    }
}

} // verus!
