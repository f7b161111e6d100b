use admin_api::envelope::{res_error, PageData, ResData, ResError, FAILURE_CODE, SUCCESS_CODE};
use admin_api::state::AppState;

#[test]
fn codes_are_200_and_401() {
    assert_eq!(SUCCESS_CODE, 200);
    assert_eq!(FAILURE_CODE, 401);
}

#[test]
fn default_envelope_is_blank() {
    let envelope: ResData<String> = ResData::default();
    assert_eq!(envelope.code, 0);
    assert_eq!(envelope.msg, "");
    assert_eq!(envelope.data, "");
}

#[test]
fn default_envelope_takes_the_payload_default() {
    let numbers: ResData<u32> = ResData::default();
    assert_eq!(numbers.data, 0);
    let list: ResData<Vec<u8>> = ResData::default();
    assert!(list.data.is_empty());
    let maybe: ResData<Option<u8>> = ResData::default();
    assert_eq!(maybe.data, None);
}

#[test]
fn default_envelope_with_only_data_overridden_keeps_code_and_msg() {
    let envelope = ResData { data: vec![1u8, 2, 3], ..ResData::default() };
    assert_eq!(envelope.code, 0);
    assert_eq!(envelope.msg, "");
    assert_eq!(envelope.data, vec![1u8, 2, 3]);
}

#[test]
fn with_data_replaces_the_payload_only() {
    let blank: ResData<u32> = ResData::default();
    let filled = blank.with_data(7);
    assert_eq!(filled.code, 0);
    assert_eq!(filled.msg, "");
    assert_eq!(filled.data, 7);

    let custom = ResData { code: 418, msg: String::from("teapot"), data: 1u32 }.with_data(2);
    assert_eq!(custom.code, 418);
    assert_eq!(custom.msg, "teapot");
    assert_eq!(custom.data, 2);
}

#[test]
fn envelope_with_code_and_msg_overridden_keeps_default_data() {
    let envelope: ResData<String> =
        ResData { code: 200, msg: String::from("is ok"), ..ResData::default() };
    assert_eq!(envelope.code, 200);
    assert_eq!(envelope.msg, "is ok");
    assert_eq!(envelope.data, "");
}

#[test]
fn explicit_envelope_holds_all_three_fields() {
    let envelope = ResData { code: 200, msg: String::from("is ok"), data: 5u8 };
    assert_eq!(envelope.code, 200);
    assert_eq!(envelope.msg, "is ok");
    assert_eq!(envelope.data, 5);
}

#[test]
fn success_envelope_is_200_is_ok() {
    let envelope = ResData::success(vec![String::from("a")]);
    assert_eq!(envelope.code, 200);
    assert_eq!(envelope.msg, "is ok");
    assert_eq!(envelope.data, vec![String::from("a")]);
}

#[test]
fn success_envelope_header_ignores_the_payload() {
    let small = ResData::success(0u8);
    let large = ResData::success(vec![0u64; 1000]);
    assert_eq!(small.code, large.code);
    assert_eq!(small.msg, large.msg);
}

#[test]
fn default_page_is_blank() {
    let page: PageData<Vec<u8>> = PageData::default();
    assert_eq!(page.code, 0);
    assert_eq!(page.msg, "");
    assert!(page.data.is_empty());
    assert_eq!(page.total, 0);
}

#[test]
fn success_page_is_200_is_ok_with_total() {
    let page = PageData::success(vec![1u8, 2], 25);
    assert_eq!(page.code, 200);
    assert_eq!(page.msg, "is ok");
    assert_eq!(page.data, vec![1u8, 2]);
    assert_eq!(page.total, 25);
}

#[test]
fn page_total_does_not_follow_the_page_length() {
    let empty = PageData::success(Vec::<u8>::new(), 25);
    let short = PageData::success(vec![1u8], 25);
    let longer_than_total = PageData::success(vec![1u8, 2, 3], 2);
    assert_eq!(empty.total, 25);
    assert_eq!(short.total, 25);
    assert_eq!(longer_than_total.total, 2);
    assert_eq!(longer_than_total.data.len(), 3);
}

#[test]
fn page_total_spans_the_whole_range() {
    assert_eq!(PageData::success((), 0).total, 0);
    assert_eq!(PageData::success((), u64::MAX).total, u64::MAX);
}

#[test]
fn res_error_holds_code_and_message() {
    let error = res_error(401, String::from("duplicate username"));
    assert_eq!(error.code, 401);
    assert_eq!(error.msg, "duplicate username");
    let other = res_error(0, String::new());
    assert_eq!(other.code, 0);
    assert_eq!(other.msg, "");
    let top = res_error(u16::MAX, String::from("x"));
    assert_eq!(top.code, u16::MAX);
}

#[test]
fn rejected_error_is_401_with_the_message_unchanged() {
    let error = ResError::rejected(String::from("user not found"));
    assert_eq!(error.code, 401);
    assert_eq!(error.msg, "user not found");
    let empty = ResError::rejected(String::new());
    assert_eq!(empty.code, 401);
    assert_eq!(empty.msg, "");
}

#[test]
fn no_database_error_is_401_with_the_fixed_message() {
    let error = ResError::no_database();
    assert_eq!(error.code, 401);
    assert_eq!(error.msg, "连接数据库失败");
}

#[test]
fn database_hands_out_the_handle_that_is_attached() {
    let state = AppState { version: String::from("1.0.0"), mon_db: Some(42u32) };
    match state.database() {
        Ok(handle) => assert_eq!(*handle, 42),
        Err(_) => panic!("a handle is attached"),
    }
    assert_eq!(state.version, "1.0.0");
}

#[test]
fn database_fails_where_no_handle_is_attached() {
    let state: AppState<u32> = AppState { version: String::from("1.0.0"), mon_db: None };
    match state.database() {
        Ok(_) => panic!("no handle is attached"),
        Err(error) => {
            assert_eq!(error.code, 401);
            assert_eq!(error.msg, "连接数据库失败");
        },
    }
}
