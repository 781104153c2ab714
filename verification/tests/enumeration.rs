use cheat_engine::enumerate::enum_proc;
use cheat_engine::enumerate::EnumProtocol;
use cheat_engine::enumerate::EnumResponse;
use cheat_engine::enumerate::EnumStep;
use cheat_engine::error::Error;

#[test]
fn enum_proc_keeps_distinct_positive_identifiers() {
    let r = enum_proc(vec![0, 5, 5, 7, 0, 9, 7]);
    assert_eq!(r, vec![5, 7, 9]);
    assert!(r.iter().all(|&pid| pid > 0));
    for i in 0..r.len() {
        for j in 0..r.len() {
            if i != j {
                assert_ne!(r[i], r[j]);
            }
        }
    }
}

#[test]
fn enum_proc_empty_table_is_empty_not_an_error() {
    assert!(enum_proc(Vec::new()).is_empty());
}

#[test]
fn enum_proc_drops_the_zero_pseudo_process() {
    assert_eq!(enum_proc(vec![0, 0, 0]), Vec::<u32>::new());
}

#[test]
fn retry_protocol_doubles_on_exact_fit_and_converges() {
    let mut proto = EnumProtocol::new(4, 2);
    assert_eq!(proto.capacity(), 4);
    assert_eq!(proto.on_response(EnumResponse::Filled { count: 4 }), EnumStep::Retry);
    assert_eq!(proto.capacity(), 8);
    assert_eq!(proto.on_response(EnumResponse::Filled { count: 8 }), EnumStep::Retry);
    assert_eq!(proto.capacity(), 16);
    // the doublings are spent: even an exact fit is accepted now
    assert_eq!(proto.on_response(EnumResponse::Filled { count: 16 }), EnumStep::Done);
    assert_eq!(proto.capacity(), 16);
}

#[test]
fn retry_protocol_accepts_an_answer_under_capacity() {
    let mut proto = EnumProtocol::new(1024, 8);
    assert_eq!(proto.on_response(EnumResponse::Filled { count: 97 }), EnumStep::Done);
    assert_eq!(proto.capacity(), 1024);
}

#[test]
fn retry_protocol_reports_os_failure_verbatim() {
    let mut proto = EnumProtocol::new(4, 2);
    let step = proto.on_response(EnumResponse::Failed { code: 5 });
    assert_eq!(step, EnumStep::Fail { error: Error::Os { code: 5 } });
}

#[test]
fn truncation_retry_produces_the_complete_set() {
    // A host with twelve processes and an initial offer of four slots: a
    // single truncated attempt would report the power-of-two artifact 4,
    // the protocol instead retries until the whole table fits.
    let table: Vec<u32> = (1..=12).collect();
    let mut proto = EnumProtocol::new(4, 8);
    let mut accepted: Option<Vec<u32>> = None;
    for _ in 0..32 {
        let capacity = proto.capacity();
        let filled = table.len().min(capacity);
        match proto.on_response(EnumResponse::Filled { count: filled }) {
            EnumStep::Retry => continue,
            EnumStep::Done => {
                accepted = Some(table[..filled].to_vec());
                break;
            }
            EnumStep::Fail { .. } => panic!("the simulated host never fails"),
        }
    }
    let pids = enum_proc(accepted.expect("the protocol must converge"));
    assert_eq!(pids.len(), 12);
    assert_eq!(pids, table);
}
