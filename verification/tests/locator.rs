use roura_desktop::locator::{candidate, trim, Located, Probe, ProbeOutcome, CANDIDATE_COUNT};

fn ok(stdout: &str) -> ProbeOutcome {
    ProbeOutcome::Ran { success: true, stdout: stdout.to_string() }
}

fn failed(stdout: &str) -> ProbeOutcome {
    ProbeOutcome::Ran { success: false, stdout: stdout.to_string() }
}

#[test]
fn candidates_are_tried_in_fixed_order() {
    assert_eq!(CANDIDATE_COUNT, 5);
    assert_eq!(candidate(0), Some("python3"));
    assert_eq!(candidate(1), Some("python"));
    assert_eq!(candidate(2), Some("/usr/bin/python3"));
    assert_eq!(candidate(3), Some("/usr/local/bin/python3"));
    assert_eq!(candidate(4), Some("/opt/homebrew/bin/python3"));
    assert_eq!(candidate(5), None);
}

#[test]
fn search_begins_with_the_first_candidate() {
    assert_eq!(Probe::first(), Probe::Candidate { index: 0 });
    assert_eq!(Probe::first().command(), Some(("python3", "--version")));
}

#[test]
fn probe_commands() {
    assert_eq!(
        Probe::Candidate { index: 4 }.command(),
        Some(("/opt/homebrew/bin/python3", "--version"))
    );
    assert_eq!(Probe::Candidate { index: 5 }.command(), None);
    assert_eq!(Probe::Lookup.command(), Some(("which", "python3")));
}

#[test]
fn first_answering_candidate_is_found() {
    assert_eq!(
        Probe::Candidate { index: 0 }.conclude(&ok("Python 3.12.1\n")),
        Located::Found("python3".to_string())
    );
    assert_eq!(
        Probe::Candidate { index: 2 }.conclude(&ok("")),
        Located::Found("/usr/bin/python3".to_string())
    );
}

#[test]
fn failed_candidate_leads_to_the_next() {
    assert_eq!(
        Probe::Candidate { index: 0 }.conclude(&ProbeOutcome::NotRun),
        Located::Next(Probe::Candidate { index: 1 })
    );
    assert_eq!(
        Probe::Candidate { index: 3 }.conclude(&ProbeOutcome::NotRun),
        Located::Next(Probe::Candidate { index: 4 })
    );
}

#[test]
fn candidate_that_reports_failure_has_not_answered() {
    assert_eq!(
        Probe::Candidate { index: 1 }.conclude(&failed("Python 2.7")),
        Located::Next(Probe::Candidate { index: 2 })
    );
    assert_eq!(Probe::Lookup.conclude(&failed("/usr/bin/python3\n")), Located::NotFound);
}

#[test]
fn last_candidate_leads_to_the_lookup() {
    assert_eq!(
        Probe::Candidate { index: 4 }.conclude(&ProbeOutcome::NotRun),
        Located::Next(Probe::Lookup)
    );
}

#[test]
fn candidate_out_of_range_finds_nothing() {
    assert_eq!(Probe::Candidate { index: 5 }.conclude(&ok("x")), Located::NotFound);
    assert_eq!(
        Probe::Candidate { index: usize::MAX }.conclude(&ProbeOutcome::NotRun),
        Located::NotFound
    );
}

#[test]
fn lookup_answer_is_trimmed() {
    assert_eq!(
        Probe::Lookup.conclude(&ok("/usr/bin/python3\n")),
        Located::Found("/usr/bin/python3".to_string())
    );
    assert_eq!(
        Probe::Lookup.conclude(&ok("  /opt/py thon/bin/python3 \r\n")),
        Located::Found("/opt/py thon/bin/python3".to_string())
    );
}

#[test]
fn empty_or_failed_lookup_finds_nothing() {
    assert_eq!(Probe::Lookup.conclude(&ok("")), Located::NotFound);
    assert_eq!(Probe::Lookup.conclude(&ok(" \n\t ")), Located::NotFound);
    assert_eq!(Probe::Lookup.conclude(&ProbeOutcome::NotRun), Located::NotFound);
}

#[test]
fn whole_search_stops_at_first_answer() {
    let answers = [false, false, true, true, true];
    let mut probe = Probe::first();
    let mut probed = 0;
    let found = loop {
        probed += 1;
        let outcome = match probe {
            Probe::Candidate { index } if answers[index] => ok("Python 3"),
            _ => ProbeOutcome::NotRun,
        };
        match probe.conclude(&outcome) {
            Located::Next(next) => probe = next,
            Located::Found(path) => break Some(path),
            Located::NotFound => break None,
        }
    };
    assert_eq!(found, Some("/usr/bin/python3".to_string()));
    assert_eq!(probed, 3);
}

#[test]
fn whole_search_falls_back_to_lookup() {
    let mut probe = Probe::first();
    let mut probed = 0;
    let found = loop {
        probed += 1;
        let outcome = match probe {
            Probe::Lookup => ok("/home/me/.pyenv/shims/python3\n"),
            _ => ProbeOutcome::NotRun,
        };
        match probe.conclude(&outcome) {
            Located::Next(next) => probe = next,
            Located::Found(path) => break Some(path),
            Located::NotFound => break None,
        }
    };
    assert_eq!(found, Some("/home/me/.pyenv/shims/python3".to_string()));
    assert_eq!(probed, 6);
}

#[test]
fn trim_agrees_with_std() {
    let samples = [
        "",
        " ",
        "a",
        " a",
        "a ",
        "  a b  ",
        "\t\n\r x \u{b}\u{c}",
        "\u{85}x\u{a0}",
        "\u{1680}\u{2000}\u{200a}x\u{2028}\u{2029}\u{202f}\u{205f}\u{3000}",
        "\u{200b}x\u{200b}",
        "\u{180e}x",
        "é  ü",
        "\n\n",
    ];
    for sample in samples {
        assert_eq!(trim(sample), sample.trim(), "sample {:?}", sample);
    }
}
