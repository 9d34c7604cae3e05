use n3ondiff::input::ByteCodeInput;
use n3ondiff::objective::{classify, Cause, DiffExitKind, DiffStdOutObjective, ExitKind};
use n3ondiff::output::{parse, Output};

fn hello() -> ByteCodeInput {
    let mut opcodes = vec![0x0c, 0x0c];
    opcodes.extend_from_slice(b"Hello world!");
    ByteCodeInput { opcodes }
}

fn printed(status: &str, stack: &str) -> Option<Vec<u8>> {
    Some(
        format!(r#"{{"status":"{}","errmsg":"","lastop":64,"estack":{}}}"#, status, stack)
            .into_bytes(),
    )
}

fn output(status: &str, stack: &str) -> Option<Output> {
    parse(&printed(status, stack).unwrap())
}

const ONE: &str = r#"[{"type":"Integer","value":"1"}]"#;
const TWO: &str = r#"[{"type":"Integer","value":"2"}]"#;

fn a_crashed() -> ExitKind {
    ExitKind::Diff { primary: DiffExitKind::Crash, secondary: DiffExitKind::Normal }
}

#[test]
fn status_difference_is_no_divergence_by_default() {
    let mut oracle = DiffStdOutObjective::new(false, false);
    let found = oracle.is_interesting(
        &hello(),
        &printed("VM halted", "[]"),
        &printed("VM faulted", "[]"),
        &ExitKind::Normal,
    );
    assert!(!found);
    let record = oracle.append_metadata();
    assert!(record.base64.is_none());
    assert!(record.fst.is_none());
    assert!(record.snd.is_none());
    assert!(record.cause.is_none());
}

#[test]
fn status_difference_is_a_divergence_when_asked_for() {
    let mut oracle = DiffStdOutObjective::new(true, false);
    let found = oracle.is_interesting(
        &hello(),
        &printed("VM halted", "[]"),
        &printed("VM faulted", "[]"),
        &ExitKind::Normal,
    );
    assert!(found);
    let record = oracle.append_metadata();
    assert_eq!(record.cause.as_deref(), Some("different status"));
    assert_eq!(record.base64.as_deref(), Some("DAxIZWxsbyB3b3JsZCE="));
    assert_eq!(record.fst.expect("the first output").status, "VM halted");
    assert_eq!(record.snd.expect("the second output").status, "VM faulted");
}

#[test]
fn different_stacks_after_a_normal_end_diverge() {
    let mut oracle = DiffStdOutObjective::new(false, false);
    let found = oracle.is_interesting(
        &hello(),
        &printed("VM halted", ONE),
        &printed("VM halted", TWO),
        &ExitKind::Normal,
    );
    assert!(found);
    let record = oracle.append_metadata();
    assert_eq!(record.cause.as_deref(), Some("different stack"));
    assert_eq!(record.base64.as_deref(), Some("DAxIZWxsbyB3b3JsZCE="));
    let fst = record.fst.expect("the first output");
    let snd = record.snd.expect("the second output");
    assert_eq!(fst.estack[0].ivalue, serde_json::Value::String(String::from("1")));
    assert_eq!(snd.estack[0].ivalue, serde_json::Value::String(String::from("2")));
}

#[test]
fn equal_stacks_after_a_normal_end_do_not_diverge() {
    let mut oracle = DiffStdOutObjective::new(true, true);
    let found = oracle.is_interesting(
        &hello(),
        &printed("VM halted", ONE),
        &printed("VM halted", ONE),
        &ExitKind::Normal,
    );
    assert!(!found);
    assert!(oracle.append_metadata().cause.is_none());
}

#[test]
fn different_stacks_after_the_same_fault_do_not_diverge() {
    let mut oracle = DiffStdOutObjective::new(true, true);
    let found = oracle.is_interesting(
        &hello(),
        &printed("VM faulted", ONE),
        &printed("VM faulted", TWO),
        &ExitKind::Normal,
    );
    assert!(!found);
}

#[test]
fn different_stack_lengths_diverge() {
    let mut oracle = DiffStdOutObjective::new(false, false);
    let longer = r#"[{"type":"Integer","value":"1"},{"type":"Integer","value":"1"}]"#;
    assert!(oracle.is_interesting(
        &hello(),
        &printed("VM halted", ONE),
        &printed("VM halted", longer),
        &ExitKind::Normal,
    ));
    assert_eq!(oracle.append_metadata().cause.as_deref(), Some("different stack"));
}

#[test]
fn different_type_tags_diverge() {
    let mut oracle = DiffStdOutObjective::new(false, false);
    let other = r#"[{"type":"ByteString","value":"1"}]"#;
    assert!(oracle.is_interesting(
        &hello(),
        &printed("VM halted", ONE),
        &printed("VM halted", other),
        &ExitKind::Normal,
    ));
}

#[test]
fn a_crash_of_one_machine_diverges_whatever_was_printed() {
    let garbage = Some(b"Segmentation fault".to_vec());
    let stacks = [printed("VM halted", ONE), garbage.clone(), None];
    for fst in stacks.iter() {
        for snd in stacks.iter() {
            let mut oracle = DiffStdOutObjective::new(false, true);
            assert!(oracle.is_interesting(&hello(), fst, snd, &a_crashed()));
            let record = oracle.append_metadata();
            assert_eq!(record.cause.as_deref(), Some("different exit code: Crash / Ok"));
            assert_eq!(record.base64.as_deref(), Some("DAxIZWxsbyB3b3JsZCE="));
            assert_eq!(record.fst.is_some(), *fst == stacks[0]);
            assert_eq!(record.snd.is_some(), *snd == stacks[0]);
        }
    }
}

#[test]
fn a_crash_of_the_second_machine_diverges() {
    let mut oracle = DiffStdOutObjective::new(false, true);
    let exit = ExitKind::Diff { primary: DiffExitKind::Timeout, secondary: DiffExitKind::Crash };
    assert!(oracle.is_interesting(&hello(), &None, &printed("VM halted", ONE), &exit));
    let record = oracle.append_metadata();
    assert_eq!(record.cause.as_deref(), Some("different exit code: Timeout / Crash"));
    assert!(record.fst.is_none());
    assert_eq!(record.snd.expect("the second output").status, "VM halted");
}

#[test]
fn a_crash_comes_before_the_other_rules() {
    let mut oracle = DiffStdOutObjective::new(true, true);
    assert!(oracle.is_interesting(
        &hello(),
        &printed("VM halted", ONE),
        &printed("VM halted", TWO),
        &a_crashed(),
    ));
    assert_eq!(
        oracle.append_metadata().cause.as_deref(),
        Some("different exit code: Crash / Ok")
    );
}

#[test]
fn a_crash_is_no_divergence_unless_asked_for() {
    let mut oracle = DiffStdOutObjective::new(false, false);
    assert!(!oracle.is_interesting(
        &hello(),
        &printed("VM halted", ONE),
        &printed("VM halted", ONE),
        &a_crashed(),
    ));
    assert!(oracle.is_interesting(
        &hello(),
        &printed("VM halted", ONE),
        &printed("VM halted", TWO),
        &a_crashed(),
    ));
    assert_eq!(oracle.append_metadata().cause.as_deref(), Some("different stack"));
}

#[test]
fn exits_without_a_single_crash_do_not_fire_the_crash_rule() {
    let exits = [
        ExitKind::Normal,
        ExitKind::Crash,
        ExitKind::Oom,
        ExitKind::Timeout,
        ExitKind::Diff { primary: DiffExitKind::Crash, secondary: DiffExitKind::Crash },
        ExitKind::Diff { primary: DiffExitKind::Normal, secondary: DiffExitKind::Timeout },
        ExitKind::Diff { primary: DiffExitKind::Oom, secondary: DiffExitKind::Diff },
    ];
    for exit in exits.iter() {
        let mut oracle = DiffStdOutObjective::new(true, true);
        assert!(!oracle.is_interesting(&hello(), &None, &None, exit), "{:?}", exit);
    }
}

#[test]
fn unreadable_output_is_no_divergence() {
    let garbage = Some(b"panic: runtime error".to_vec());
    let good = printed("VM halted", ONE);
    let mut oracle = DiffStdOutObjective::new(true, true);
    assert!(!oracle.is_interesting(&hello(), &garbage, &garbage, &ExitKind::Normal));
    assert!(!oracle.is_interesting(&hello(), &good, &garbage, &ExitKind::Normal));
    assert!(!oracle.is_interesting(&hello(), &garbage, &good, &ExitKind::Normal));
    assert!(!oracle.is_interesting(&hello(), &None, &good, &ExitKind::Normal));
    assert!(!oracle.is_interesting(&hello(), &None, &None, &ExitKind::Normal));
}

#[test]
fn the_record_is_that_of_the_last_pair() {
    let mut oracle = DiffStdOutObjective::new(false, false);
    assert!(oracle.is_interesting(
        &hello(),
        &printed("VM halted", ONE),
        &printed("VM halted", TWO),
        &ExitKind::Normal,
    ));
    assert!(oracle.append_metadata().cause.is_some());
    assert!(!oracle.is_interesting(
        &hello(),
        &printed("VM halted", ONE),
        &printed("VM halted", ONE),
        &ExitKind::Normal,
    ));
    let record = oracle.append_metadata();
    assert!(record.base64.is_none());
    assert!(record.fst.is_none());
    assert!(record.snd.is_none());
    assert!(record.cause.is_none());
}

#[test]
fn the_same_pair_gets_the_same_decision() {
    let exit = ExitKind::Diff { primary: DiffExitKind::Normal, secondary: DiffExitKind::Crash };
    for (status_diff, crash_diff) in [(false, false), (false, true), (true, false), (true, true)] {
        let mut first = DiffStdOutObjective::new(status_diff, crash_diff);
        let mut second = DiffStdOutObjective::new(status_diff, crash_diff);
        second.is_interesting(&hello(), &printed("VM halted", ONE), &None, &ExitKind::Crash);
        let fst = printed("VM halted", ONE);
        let snd = printed("VM faulted", TWO);
        let a = first.is_interesting(&hello(), &fst, &snd, &exit);
        let b = second.is_interesting(&hello(), &fst, &snd, &exit);
        let c = second.is_interesting(&hello(), &fst, &snd, &exit);
        assert_eq!(a, b);
        assert_eq!(b, c);
        assert_eq!(first.append_metadata().cause, second.append_metadata().cause);
        assert_eq!(a, status_diff || crash_diff);
    }
}

#[test]
fn classify_tries_the_rules_in_order() {
    let halted_one = output("VM halted", ONE);
    let halted_two = output("VM halted", TWO);
    let faulted = output("VM faulted", ONE);
    assert_eq!(
        classify(&a_crashed(), &halted_one, &halted_two, true, true),
        Some(Cause::ExitCode { primary: DiffExitKind::Crash, secondary: DiffExitKind::Normal })
    );
    assert_eq!(classify(&a_crashed(), &halted_one, &halted_two, true, false), Some(Cause::Stack));
    assert_eq!(classify(&ExitKind::Normal, &halted_one, &faulted, true, true), Some(Cause::Status));
    assert_eq!(classify(&ExitKind::Normal, &halted_one, &faulted, false, true), None);
    assert_eq!(classify(&ExitKind::Normal, &halted_one, &halted_one, true, true), None);
    assert_eq!(classify(&ExitKind::Normal, &None, &halted_one, true, true), None);
    assert_eq!(classify(&ExitKind::Normal, &None, &None, true, true), None);
}

#[test]
fn causes_in_words() {
    assert_eq!(Cause::Stack.to_string(), "different stack");
    assert_eq!(Cause::Status.to_string(), "different status");
    assert_eq!(
        Cause::ExitCode { primary: DiffExitKind::Oom, secondary: DiffExitKind::Diff }.to_string(),
        "different exit code: Oom / Diff"
    );
}

#[test]
fn exit_kinds_by_name() {
    assert_eq!(DiffExitKind::Normal.to_string(), "Ok");
    assert_eq!(DiffExitKind::Crash.to_string(), "Crash");
    assert_eq!(DiffExitKind::Oom.to_string(), "Oom");
    assert_eq!(DiffExitKind::Timeout.to_string(), "Timeout");
    assert_eq!(DiffExitKind::Diff.to_string(), "Diff");
}

#[test]
fn the_record_is_copied_whole() {
    let mut oracle = DiffStdOutObjective::new(true, false);
    oracle.is_interesting(
        &ByteCodeInput { opcodes: vec![1, 2, 3] },
        &printed("VM halted", ONE),
        &printed("VM faulted", TWO),
        &ExitKind::Normal,
    );
    let record = oracle.append_metadata();
    let copy = record.clone();
    assert_eq!(copy.base64.as_deref(), Some("AQID"));
    assert_eq!(copy.cause, record.cause);
    assert_eq!(copy.fst.expect("the first output").estack[0].itype, "Integer");
    assert_eq!(copy.snd.expect("the second output").status, "VM faulted");
}

#[test]
fn an_oracle_keeps_its_flags() {
    for (status_diff, crash_diff) in [(false, false), (false, true), (true, false), (true, true)] {
        let mut oracle = DiffStdOutObjective::new(status_diff, crash_diff);
        assert_eq!(oracle.detect_status_diff(), status_diff);
        assert_eq!(oracle.detect_crash_diff(), crash_diff);
        assert!(oracle.metadata().cause.is_none());
        assert!(oracle.metadata().base64.is_none());
        oracle.is_interesting(&hello(), &printed("a", ONE), &printed("b", ONE), &a_crashed());
        assert_eq!(oracle.detect_status_diff(), status_diff);
        assert_eq!(oracle.detect_crash_diff(), crash_diff);
        assert_eq!(oracle.metadata().cause.is_some(), status_diff || crash_diff);
    }
}
