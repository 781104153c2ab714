use cheat_engine::error::Error;
use cheat_engine::name::NameResponse;
use cheat_engine::process::desired_access;
use cheat_engine::process::Process;
use cheat_engine::process::QUERY_INFORMATION_RIGHT;
use cheat_engine::process::VM_READ_RIGHT;

#[test]
fn access_mask_asks_for_query_and_read_only() {
    assert_eq!(desired_access(), QUERY_INFORMATION_RIGHT | VM_READ_RIGHT);
    assert_eq!(desired_access(), 0x0410);
}

#[test]
fn open_denied_yields_the_permission_error() {
    // 5 is the host's access-denied code, as for a protected process.
    match Process::open(1234, 0, 5) {
        Err(e) => assert_eq!(e, Error::Os { code: 5 }),
        Ok(_) => panic!("a refused open must not yield a handle"),
    }
}

#[test]
fn open_and_close_round_the_raw_handle() {
    let p = Process::open(42, 0xABC, 0).unwrap();
    assert_eq!(p.pid(), 42);
    assert_eq!(p.raw(), 0xABC);
    assert_eq!(p.close(), 0xABC);
    // After close the handle value is consumed; a further query does not
    // compile, which is the point.
}

#[test]
fn name_decodes_the_bytes_the_host_wrote() {
    let p = Process::open(1, 1, 0).unwrap();
    let name = p.name(NameResponse::Bytes { data: b"firefox.exe".to_vec() }).unwrap();
    assert_eq!(name, "firefox.exe");
}

#[test]
fn name_decodes_multibyte_text() {
    let p = Process::open(1, 1, 0).unwrap();
    // 0xC3 0xA9 is the two-byte encoding of e-acute: the answer must be the
    // one decoded character, not the raw bytes handed back unchanged.
    let name = p.name(NameResponse::Bytes { data: vec![0xC3, 0xA9] }).unwrap();
    assert_eq!(name, "\u{e9}");
    assert_eq!(name.chars().count(), 1);
}

#[test]
fn name_surfaces_malformed_bytes_as_decode_error() {
    let p = Process::open(1, 1, 0).unwrap();
    match p.name(NameResponse::Bytes { data: vec![0x66, 0xFF, 0x6F] }) {
        Err(e) => assert_eq!(e, Error::Decode),
        Ok(s) => panic!("malformed bytes must not become the string {s:?}"),
    }
}

#[test]
fn name_surfaces_a_rejected_query_as_os_error() {
    let p = Process::open(1, 1, 0).unwrap();
    match p.name(NameResponse::Failed { code: 299 }) {
        Err(e) => assert_eq!(e, Error::Os { code: 299 }),
        Ok(_) => panic!("a rejected query must not yield a name"),
    }
}
