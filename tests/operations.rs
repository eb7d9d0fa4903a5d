use zkcli::cmd::{Create, Delete, DeleteAll, Exists, Get, SetData, SubCommands};
use zkcli::exec::{exists_result, read_result, remove_result, request_for, write_result, Request};
use zkcli::output::{OpCode, OpResult, ZnodeStat};
use zkcli::payload::{gen_random_data, payload};

fn stat(version: i32) -> ZnodeStat {
    ZnodeStat {
        czxid: 1,
        mzxid: 2,
        ctime: 3,
        mtime: 4,
        version,
        cversion: 5,
        aversion: 6,
        ephemeral_owner: 0,
        data_length: 7,
        num_children: 8,
        pzxid: 9,
    }
}

#[test]
fn random_data_has_requested_length() {
    for size in [0usize, 1, 7, 1024] {
        assert_eq!(gen_random_data(size).len(), size);
    }
}

#[test]
fn payload_uses_value_without_random_size() {
    let v = Some("héllo".to_string());
    assert_eq!(payload(&v, 0), "héllo".as_bytes().to_vec());
}

#[test]
fn payload_random_size_overrides_value() {
    let v = Some("hello".to_string());
    assert_eq!(payload(&v, 12).len(), 12);
}

#[test]
fn payload_without_value_is_random_of_size() {
    assert_eq!(payload(&None, 0).len(), 0);
    assert_eq!(payload(&None, 5).len(), 5);
}

#[test]
fn create_request_writes_value() {
    let cmd = SubCommands::Create(Create {
        path: "/a/b".to_string(),
        value: Some("data".to_string()),
        random_size: 0,
    });
    match request_for(cmd) {
        Request::Write { path, data } => {
            assert_eq!(path, "/a/b");
            assert_eq!(data, b"data".to_vec());
        }
        other => panic!("unexpected request {:?}", other),
    }
}

#[test]
fn set_request_with_random_size() {
    let cmd = SubCommands::SetData(SetData {
        path: "/x".to_string(),
        value: Some("data".to_string()),
        random_size: 3,
    });
    match request_for(cmd) {
        Request::Write { path, data } => {
            assert_eq!(path, "/x");
            assert_eq!(data.len(), 3);
        }
        other => panic!("unexpected request {:?}", other),
    }
}

#[test]
fn read_only_requests_keep_path() {
    assert!(matches!(request_for(SubCommands::Get(Get { path: "/g".to_string() })),
        Request::Read { path } if path == "/g"));
    assert!(matches!(request_for(SubCommands::Exists(Exists { path: "/e".to_string() })),
        Request::Probe { path } if path == "/e"));
    assert!(matches!(request_for(SubCommands::Delete(Delete { path: "/d".to_string() })),
        Request::Remove { path } if path == "/d"));
    assert!(matches!(request_for(SubCommands::DeleteAll(DeleteAll { path: "/r".to_string() })),
        Request::RemoveAll { path } if path == "/r"));
}

#[test]
fn write_success_carries_stat() {
    let r = write_result(Ok(stat(3)));
    assert_eq!(r.code, OpCode::Success);
    assert_eq!(r.znode_stat, Some(stat(3)));
    assert_eq!(r.value, None);
    assert_eq!(r.error, None);
}

#[test]
fn write_failure_carries_cause() {
    let r = write_result(Err("NoAuth".to_string()));
    assert_eq!(r.code, OpCode::Failed);
    assert_eq!(r.znode_stat, None);
    assert_eq!(r.error, Some("NoAuth".to_string()));
}

#[test]
fn get_after_set_returns_value() {
    let written = payload(&Some("v1".to_string()), 0);
    let r = read_result(Ok((written, stat(1))));
    assert_eq!(r.code, OpCode::Success);
    assert_eq!(r.value, Some("v1".to_string()));
    assert_eq!(r.znode_stat, Some(stat(1)));
    assert_eq!(r.error, None);
}

#[test]
fn get_invalid_utf8_omits_value() {
    let r = read_result(Ok((vec![0xff, 0xfe, 0x80], stat(2))));
    assert_eq!(r.code, OpCode::Success);
    assert_eq!(r.value, None);
    assert_eq!(r.znode_stat, Some(stat(2)));
}

#[test]
fn get_failure_has_no_error_text() {
    let r = read_result(Err("NoNode".to_string()));
    assert_eq!(r.code, OpCode::Failed);
    assert_eq!(r.znode_stat, None);
    assert_eq!(r.value, None);
    assert_eq!(r.error, None);
}

#[test]
fn exists_missing_node_is_success_without_stat() {
    let r = exists_result(Ok(None));
    assert_eq!(r.code, OpCode::Success);
    assert_eq!(r.znode_stat, None);
}

#[test]
fn exists_present_node_has_stat() {
    let r = exists_result(Ok(Some(stat(4))));
    assert_eq!(r.code, OpCode::Success);
    assert_eq!(r.znode_stat, Some(stat(4)));
}

#[test]
fn exists_failure() {
    let r = exists_result(Err("ConnectionLoss".to_string()));
    assert_eq!(r.code, OpCode::Failed);
    assert_eq!(r.error, None);
}

#[test]
fn delete_with_children_fails_and_delete_all_succeeds() {
    let r = remove_result(Err("NotEmpty".to_string()));
    assert_eq!(r.code, OpCode::Failed);
    assert_eq!(r.error, None);
    let r = remove_result(Ok(()));
    assert_eq!(r.code, OpCode::Success);
    assert_eq!(r.znode_stat, None);
}

#[test]
fn opcode_default_is_success() {
    assert_eq!(OpCode::default(), OpCode::Success);
    assert_eq!(OpResult::success().code, OpCode::Success);
    assert_eq!(OpResult::failed().code, OpCode::Failed);
}
