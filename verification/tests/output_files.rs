use zkbench::MemorySink;
use zkbench::OutputSink;
use zkbench::System;

#[test]
fn prepare_session_truncates_listed_files() {
    let mut sink = MemorySink::new();
    sink.append_record(System::HyperPlonk, 10, 1).unwrap();
    sink.append_record(System::Halo2, 11, 2).unwrap();
    sink.prepare_session(&vec![System::HyperPlonk]).unwrap();
    assert_eq!(sink.contents(System::HyperPlonk).as_str(), "");
    assert_eq!(sink.contents(System::Halo2).as_str(), "11, 2\n");
}

#[test]
fn prepare_session_is_idempotent() {
    let mut sink = MemorySink::new();
    sink.append_record(System::HyperPlonk, 10, 1).unwrap();
    sink.append_record(System::UniHyperPlonk, 10, 2).unwrap();
    let ids = vec![System::HyperPlonk, System::UniHyperPlonk];
    sink.prepare_session(&ids).unwrap();
    sink.prepare_session(&ids).unwrap();
    assert_eq!(sink.contents(System::HyperPlonk).as_str(), "");
    assert_eq!(sink.contents(System::UniHyperPlonk).as_str(), "");
    assert_eq!(sink.contents(System::Halo2).as_str(), "");
    assert_eq!(sink.contents(System::EspressoHyperPlonk).as_str(), "");
}

#[test]
fn two_records_append_in_order() {
    let mut sink = MemorySink::new();
    let id = System::EspressoHyperPlonk;
    sink.prepare_session(&vec![id]).unwrap();
    sink.append_record(id, 10, 123).unwrap();
    sink.append_record(id, 12, 456).unwrap();
    assert_eq!(sink.contents(id).as_str(), "10, 123\n12, 456\n");
    assert_eq!(sink.contents(id).lines().count(), 2);
}
