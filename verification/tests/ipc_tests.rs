use jiaoziflow_runtime::ipc::{
    CompleteDataReq, DecodeError, ErrorNumber, IPCError, RequetDataReq, SubmitOuputDataReq, WireField,
    WireValue,
};
use serde_json::Value;

fn to_json(err: &IPCError) -> String {
    let value = match err.to_wire() {
        WireValue::Record { code, msg } => {
            let mut map = serde_json::Map::new();
            map.insert("code".to_string(), Value::from(code));
            map.insert("msg".to_string(), Value::String(msg));
            Value::Object(map)
        }
        WireValue::Text(t) => Value::String(t),
    };
    serde_json::to_string(&value).unwrap()
}

fn from_json(text: &str) -> Result<IPCError, DecodeError> {
    match serde_json::from_str::<Value>(text).unwrap() {
        Value::String(s) => Ok(IPCError::from_text(s)),
        Value::Object(map) => {
            let mut fields = Vec::new();
            for (k, v) in map {
                match k.as_str() {
                    "code" => fields.push(WireField::Code(v.as_u64().unwrap() as u8)),
                    "msg" => fields.push(WireField::Msg(v.as_str().unwrap().to_string())),
                    _ => panic!("unknown field"),
                }
            }
            IPCError::from_record(fields)
        }
        _ => panic!("unexpected json"),
    }
}

#[test]
fn test_my_error() {
    {
        let my_err = IPCError::NodeError {
            code: ErrorNumber::AlreadyFinish,
            msg: "aaaa".to_string(),
        };
        let result = to_json(&my_err);
        assert_eq!(result, r#"{"code":2,"msg":"aaaa"}"#);

        let de_my_err = from_json(&result).unwrap();
        match de_my_err {
            IPCError::NodeError { code, msg } => {
                assert_eq!(code, ErrorNumber::AlreadyFinish);
                assert_eq!(msg, "aaaa");
            }
            _ => panic!("unexpected error type"),
        }
    }

    {
        let my_err = IPCError::UnKnown("bbbbbbbbbbbbbb".to_string());
        let result = to_json(&my_err);
        assert_eq!(result, r#""bbbbbbbbbbbbbb""#);

        let de_my_err = from_json(&result).unwrap();
        match de_my_err {
            IPCError::UnKnown(msg) => {
                assert_eq!(msg, "bbbbbbbbbbbbbb");
            }
            _ => panic!("unexpected error type"),
        }
    }
}

#[test]
fn error_codes_round_trip() {
    let all = [
        ErrorNumber::NotReady,
        ErrorNumber::InComingFinish,
        ErrorNumber::AlreadyFinish,
        ErrorNumber::DataNotFound,
        ErrorNumber::DataMissing,
    ];
    let codes: Vec<u8> = all.iter().map(|e| e.code()).collect();
    assert_eq!(codes, vec![1, 3, 2, 4, 5]);
    for e in all {
        assert_eq!(ErrorNumber::from_code(e.code()), Some(e));
    }
    assert_eq!(ErrorNumber::from_code(0), None);
    assert_eq!(ErrorNumber::from_code(6), None);
}

#[test]
fn error_messages() {
    let e = IPCError::NodeError { code: ErrorNumber::NotReady, msg: "wait".to_string() };
    assert_eq!(e.message(), "node error code(NotReady): wait");
    let e = IPCError::UnKnown("boom".to_string());
    assert_eq!(e.message(), "unknown error: boom");
    assert_eq!(ErrorNumber::DataMissing.name(), "DataMissing");
}

#[test]
fn record_decoding_errors() {
    let dup = vec![WireField::Code(1), WireField::Code(2), WireField::Msg("m".to_string())];
    assert_eq!(IPCError::from_record(dup).err(), Some(DecodeError::DuplicateCode));
    let dup_msg = vec![WireField::Msg("a".to_string()), WireField::Msg("b".to_string())];
    assert_eq!(IPCError::from_record(dup_msg).err(), Some(DecodeError::DuplicateMsg));
    let missing_code = vec![WireField::Msg("a".to_string())];
    assert_eq!(IPCError::from_record(missing_code).err(), Some(DecodeError::MissingCode));
    let missing_msg = vec![WireField::Code(4)];
    assert_eq!(IPCError::from_record(missing_msg).err(), Some(DecodeError::MissingMsg));
    let unknown = vec![WireField::Code(9), WireField::Msg("a".to_string())];
    assert_eq!(IPCError::from_record(unknown).err(), Some(DecodeError::UnknownCode(9)));
    let nothing: Vec<WireField> = Vec::new();
    assert_eq!(IPCError::from_record(nothing).err(), Some(DecodeError::MissingCode));
    // message first, code second
    match IPCError::from_record(vec![WireField::Msg("x".to_string()), WireField::Code(4)]) {
        Ok(IPCError::NodeError { code, msg }) => {
            assert_eq!(code, ErrorNumber::DataNotFound);
            assert_eq!(msg, "x");
        }
        _ => panic!("expected a node error"),
    }
}

#[test]
fn request_constructors() {
    assert_eq!(CompleteDataReq::new("abc").id, "abc");
    let s = SubmitOuputDataReq::new("out", 30);
    assert_eq!(s.id, "out");
    assert_eq!(s.size, 30);
    assert_eq!(RequetDataReq::new("labels").metadata_id, Some("labels".to_string()));
}
