use rer::{Clarity, Config, Encode, Failure, Outcome, Policy, Rer, Run, Source, Summary};

fn rer(regex: &str) -> Rer {
    Rer::new(Config {
        path: None,
        regex: regex.to_string(),
        name: Some("Show".to_string()),
        year: Some(2024),
        season: Some(2),
        source: Some(Source::HDTV),
        clarity: Some(Clarity::C4k),
        encode: Some(Encode::HEVC),
        policy: Policy::Strict,
    })
    .unwrap()
}

fn renamed(name: &str) -> Outcome {
    Outcome::Renamed(name.to_string())
}

#[test]
fn new_run_is_empty() {
    let run = Run::new();
    assert!(run.outcomes.is_empty());
    assert_eq!(run.summary(), Summary { renamed: 0, skipped: 0, failed: 0 });
}

#[test]
fn decisions_are_recorded_in_order() {
    let mut run = Run::new();
    assert_eq!(run.decide(Ok(None)), Outcome::Skipped);
    assert_eq!(run.decide(Ok(Some("a.mkv".to_string()))), renamed("a.mkv"));
    assert_eq!(run.decide(Err(Failure::Episode)), Outcome::Failed(Failure::Episode));
    assert_eq!(run.decide(Ok(Some("b.mkv".to_string()))), renamed("b.mkv"));
    assert_eq!(
        run.outcomes,
        vec![
            Outcome::Skipped,
            renamed("a.mkv"),
            Outcome::Failed(Failure::Episode),
            renamed("b.mkv"),
        ]
    );
}

#[test]
fn name_given_twice_is_a_collision() {
    let mut run = Run::new();
    assert_eq!(run.decide(Ok(Some("a.mkv".to_string()))), renamed("a.mkv"));
    assert_eq!(run.decide(Ok(Some("a.mkv".to_string()))), Outcome::Failed(Failure::Collision));
    assert_eq!(run.decide(Ok(Some("a.mkv".to_string()))), Outcome::Failed(Failure::Collision));
    assert_eq!(run.decide(Ok(Some("a.mp4".to_string()))), renamed("a.mp4"));
    assert_eq!(run.summary(), Summary { renamed: 2, skipped: 0, failed: 2 });
}

#[test]
fn is_taken_looks_at_renames_only() {
    let mut run = Run::new();
    assert!(!run.is_taken(&"a.mkv".to_string()));
    run.decide(Ok(Some("a.mkv".to_string())));
    run.decide(Ok(None));
    run.decide(Err(Failure::Season));
    assert!(run.is_taken(&"a.mkv".to_string()));
    assert!(!run.is_taken(&"a.mk".to_string()));
    assert!(!run.is_taken(&"A.mkv".to_string()));
    assert!(!run.is_taken(&String::new()));
}

#[test]
fn two_files_with_the_same_episode_collide() {
    let rer = rer(r"E(?P<ep>\d+)");
    let mut run = Run::new();
    assert_eq!(
        rer.process(&mut run, "first.E05.mkv", Some("mkv")),
        renamed("Show.2024.S2E5.HDTV.4k.HEVC.mkv")
    );
    assert_eq!(
        rer.process(&mut run, "second.E05.mkv", Some("mkv")),
        Outcome::Failed(Failure::Collision)
    );
    assert_eq!(
        rer.process(&mut run, "third.E5.mkv", Some("mkv")),
        Outcome::Failed(Failure::Collision)
    );
    assert_eq!(run.summary(), Summary { renamed: 1, skipped: 0, failed: 2 });
}

#[test]
fn same_episode_with_another_extension_does_not_collide() {
    let rer = rer(r"E(?P<ep>\d+)");
    let mut run = Run::new();
    assert_eq!(
        rer.process(&mut run, "show.E05.mkv", Some("mkv")),
        renamed("Show.2024.S2E5.HDTV.4k.HEVC.mkv")
    );
    assert_eq!(
        rer.process(&mut run, "show.E05.srt", Some("srt")),
        renamed("Show.2024.S2E5.HDTV.4k.HEVC.srt")
    );
    assert_eq!(
        rer.process(&mut run, "show.E05", None),
        renamed("Show.2024.S2E5.HDTV.4k.HEVC.mp4")
    );
    assert_eq!(
        rer.process(&mut run, "show.E05.mp4", Some("mp4")),
        Outcome::Failed(Failure::Collision)
    );
}

#[test]
fn whole_directory_is_summed_up() {
    let rer = rer(r"S(?P<season>\w+?)E(?P<ep>\d+)");
    let mut run = Run::new();
    let files = [
        ("show.S01E01.mkv", Some("mkv")),
        ("show.S01E02.mkv", Some("mkv")),
        ("notes.txt", Some("txt")),
        ("show.SxxE03.mkv", Some("mkv")),
        ("show.S01E999.mkv", Some("mkv")),
        ("copy.S1E1.mkv", Some("mkv")),
        ("README", None),
    ];
    let mut outcomes = Vec::new();
    for (name, extension) in files {
        outcomes.push(rer.process(&mut run, name, extension));
    }
    assert_eq!(
        outcomes,
        vec![
            renamed("Show.2024.S1E1.HDTV.4k.HEVC.mkv"),
            renamed("Show.2024.S1E2.HDTV.4k.HEVC.mkv"),
            Outcome::Skipped,
            Outcome::Failed(Failure::Season),
            Outcome::Failed(Failure::Episode),
            Outcome::Failed(Failure::Collision),
            Outcome::Skipped,
        ]
    );
    assert_eq!(run.outcomes, outcomes);
    let summary = run.summary();
    assert_eq!(summary, Summary { renamed: 2, skipped: 2, failed: 3 });
    assert_eq!(summary.renamed + summary.skipped + summary.failed, files.len());
}

#[test]
fn failure_of_any_kind_is_recorded_as_it_is() {
    let mut run = Run::new();
    for failure in [Failure::Pattern, Failure::Season, Failure::Episode, Failure::Collision, Failure::Rename] {
        assert_eq!(run.decide(Err(failure)), Outcome::Failed(failure));
    }
    assert_eq!(run.summary(), Summary { renamed: 0, skipped: 0, failed: 5 });
}

#[test]
fn zero_is_reported_and_counted_as_a_failure() {
    let rer = rer(r"S(?P<season>\d+)E(?P<ep>\d+)");
    let mut run = Run::new();
    assert_eq!(rer.process(&mut run, "show.S0E1.mkv", Some("mkv")), Outcome::Failed(Failure::Season));
    assert_eq!(rer.process(&mut run, "show.S1E0.mkv", Some("mkv")), Outcome::Failed(Failure::Episode));
    assert_eq!(
        rer.process(&mut run, "show.S1E1.mkv", Some("mkv")),
        renamed("Show.2024.S1E1.HDTV.4k.HEVC.mkv")
    );
    assert_eq!(run.summary(), Summary { renamed: 1, skipped: 0, failed: 2 });
}

#[test]
fn failed_rename_frees_the_name() {
    let mut run = Run::new();
    run.decide(Ok(Some("a.mkv".to_string())));
    run.rename_failed();
    assert_eq!(run.outcomes, vec![Outcome::Failed(Failure::Rename)]);
    assert!(!run.is_taken(&"a.mkv".to_string()));
    assert_eq!(run.decide(Ok(Some("a.mkv".to_string()))), renamed("a.mkv"));
    assert_eq!(run.summary(), Summary { renamed: 1, skipped: 0, failed: 1 });
}

#[test]
fn failed_rename_touches_a_rename_only() {
    let mut run = Run::new();
    run.rename_failed();
    assert!(run.outcomes.is_empty());
    run.decide(Ok(Some("a.mkv".to_string())));
    run.decide(Ok(None));
    run.rename_failed();
    assert_eq!(run.outcomes, vec![renamed("a.mkv"), Outcome::Skipped]);
    run.decide(Err(Failure::Season));
    run.rename_failed();
    assert_eq!(
        run.outcomes,
        vec![renamed("a.mkv"), Outcome::Skipped, Outcome::Failed(Failure::Season)]
    );
}
