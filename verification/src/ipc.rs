//! The protocol between a user container and its data container: request
//! and reply messages, error numbers, the server's decision on each request
//! and the client's reading of each reply.
use crate::state::TrackerState;
use vstd::prelude::*;

verus! {

/// Reply to a request for available data.
#[derive(Debug)]
pub struct AvaiableDataResponse {
    pub id: String,
    pub size: u32,
}

/// Tells the data container that the batch `id` has been processed.
pub struct CompleteDataReq {
    pub id: String,
}

impl CompleteDataReq {
    pub fn new(id: &str) -> (r: Self)
        ensures
            r.id@ == id@,
    {
        CompleteDataReq { id: id.to_owned() }
    }
}

/// Hands a new output batch `id` of `size` files to the data container.
pub struct SubmitOuputDataReq {
    pub id: String,
    pub size: u32,
}

impl SubmitOuputDataReq {
    pub fn new(id: &str, size: u32) -> (r: Self)
        ensures
            r.id@ == id@,
            r.size == size,
    {
        SubmitOuputDataReq { id: id.to_owned(), size }
    }
}

/// Asks for available data, optionally for one metadata batch.
pub struct RequetDataReq {
    pub metadata_id: Option<String>,
}

impl RequetDataReq {
    pub fn new(metadata_id: &str) -> (r: Self)
        ensures
            r.metadata_id matches Some(m) && m@ == metadata_id@,
    {
        RequetDataReq { metadata_id: Some(metadata_id.to_owned()) }
    }
}

/// State of the node as reported to the user container.
pub struct Status {
    pub state: TrackerState,
}

/// Error numbers carried by node errors.
#[derive(Clone, Copy, Debug, PartialEq, Eq, Structural)]
pub enum ErrorNumber {
    NotReady,
    InComingFinish,
    AlreadyFinish,
    DataNotFound,
    DataMissing,
}

/// The number that stands for each error on the wire.
pub open spec fn error_code(e: ErrorNumber) -> u8 {
    match e {
        ErrorNumber::NotReady => 1,
        ErrorNumber::AlreadyFinish => 2,
        ErrorNumber::InComingFinish => 3,
        ErrorNumber::DataNotFound => 4,
        ErrorNumber::DataMissing => 5,
    }
}

/// The error that a wire number stands for, if any.
pub open spec fn error_of_code(c: u8) -> Option<ErrorNumber> {
    if c == 1 {
        Some(ErrorNumber::NotReady)
    } else if c == 2 {
        Some(ErrorNumber::AlreadyFinish)
    } else if c == 3 {
        Some(ErrorNumber::InComingFinish)
    } else if c == 4 {
        Some(ErrorNumber::DataNotFound)
    } else if c == 5 {
        Some(ErrorNumber::DataMissing)
    } else {
        None
    }
}

/// The name of each error number, as it is printed.
pub open spec fn error_name(e: ErrorNumber) -> Seq<char> {
    match e {
        ErrorNumber::NotReady => "NotReady"@,
        ErrorNumber::InComingFinish => "InComingFinish"@,
        ErrorNumber::AlreadyFinish => "AlreadyFinish"@,
        ErrorNumber::DataNotFound => "DataNotFound"@,
        ErrorNumber::DataMissing => "DataMissing"@,
    }
}

impl ErrorNumber {
    /// The wire number of the error.
    pub fn code(&self) -> (r: u8)
        ensures
            r == error_code(*self),
    {
        match self {
            ErrorNumber::NotReady => 1,
            ErrorNumber::AlreadyFinish => 2,
            ErrorNumber::InComingFinish => 3,
            ErrorNumber::DataNotFound => 4,
            ErrorNumber::DataMissing => 5,
        }
    }

    /// The error of wire number `c`, or `None` for a number no error has.
    pub fn from_code(c: u8) -> (r: Option<ErrorNumber>)
        ensures
            r == error_of_code(c),
    {
        if c == 1 {
            Some(ErrorNumber::NotReady)
        } else if c == 2 {
            Some(ErrorNumber::AlreadyFinish)
        } else if c == 3 {
            Some(ErrorNumber::InComingFinish)
        } else if c == 4 {
            Some(ErrorNumber::DataNotFound)
        } else if c == 5 {
            Some(ErrorNumber::DataMissing)
        } else {
            None
        }
    }

    /// The printed name of the error.
    pub fn name(&self) -> (r: &'static str)
        ensures
            r@ == error_name(*self),
    {
        match self {
            ErrorNumber::NotReady => "NotReady",
            ErrorNumber::InComingFinish => "InComingFinish",
            ErrorNumber::AlreadyFinish => "AlreadyFinish",
            ErrorNumber::DataNotFound => "DataNotFound",
            ErrorNumber::DataMissing => "DataMissing",
        }
    }
}

/// Law of the wire numbers: decoding the number of an error gives the error
/// back, and two errors never share a number.
pub proof fn lemma_error_code_round_trip(e: ErrorNumber, f: ErrorNumber, c: u8)
    ensures
        error_of_code(error_code(e)) == Some(e),
        error_code(e) == error_code(f) ==> e == f,
        error_of_code(c) matches Some(g) ==> error_code(g) == c,
{
}

/// Law of the wire numbers: each error goes on the wire as the number the
/// protocol fixes for it (not ready 1, already finished 2, incoming finished
/// 3, data not found 4, data missing 5), and no other number stands for an
/// error.
pub proof fn lemma_error_codes_on_the_wire(e: ErrorNumber, c: u8)
    ensures
        e == ErrorNumber::NotReady <==> error_code(e) == 1,
        e == ErrorNumber::AlreadyFinish <==> error_code(e) == 2,
        e == ErrorNumber::InComingFinish <==> error_code(e) == 3,
        e == ErrorNumber::DataNotFound <==> error_code(e) == 4,
        e == ErrorNumber::DataMissing <==> error_code(e) == 5,
        error_of_code(c) is Some <==> 1 <= c <= 5,
{
}

/// Law of the error texts: the text of a node error ends with its message
/// and the text of any other error ends with its own text, so no message is
/// lost; two node errors with the same message but different numbers read
/// differently.
pub proof fn lemma_error_message_keeps_text(code: ErrorNumber, other: ErrorNumber, msg: Seq<char>)
    ensures
        ({
            let t = error_message(IPCErrorView::NodeError { code, msg });
            t.len() >= msg.len() && t.subrange(t.len() - msg.len(), t.len() as int) == msg
        }),
        ({
            let t = error_message(IPCErrorView::UnKnown(msg));
            t.len() >= msg.len() && t.subrange(t.len() - msg.len(), t.len() as int) == msg
        }),
        code != other ==> error_message(IPCErrorView::NodeError { code, msg }) != error_message(
            IPCErrorView::NodeError { code: other, msg },
        ),
{
    reveal_strlit("node error code(");
    reveal_strlit("): ");
    reveal_strlit("unknown error: ");
    reveal_strlit("NotReady");
    reveal_strlit("InComingFinish");
    reveal_strlit("AlreadyFinish");
    reveal_strlit("DataNotFound");
    reveal_strlit("DataMissing");
    let a = error_message(IPCErrorView::NodeError { code, msg });
    assert(a.subrange(a.len() - msg.len(), a.len() as int) =~= msg);
    let b = error_message(IPCErrorView::UnKnown(msg));
    assert(b.subrange(b.len() - msg.len(), b.len() as int) =~= msg);
    if code != other {
        let c = error_message(IPCErrorView::NodeError { code: other, msg });
        if a == c {
            let na = error_name(code);
            let nc = error_name(other);
            assert(a == "node error code("@ + na + "): "@ + msg);
            assert(c == "node error code("@ + nc + "): "@ + msg);
            if na.len() == nc.len() {
                assert forall|i: int| 0 <= i < na.len() implies na[i] == nc[i] by {
                    assert(a[16 + i] == na[i]);
                    assert(c[16 + i] == nc[i]);
                }
                assert(na =~= nc);
            } else {
                // the texts differ in length
                assert(a.len() != c.len());
            }
        }
    }
}

/// An error reported over the protocol: a node error with its number and
/// message, or any other failure with its text.
#[derive(Debug)]
pub enum IPCError {
    NodeError { code: ErrorNumber, msg: String },
    UnKnown(String),
}

/// Plain-value picture of an `IPCError`.
pub enum IPCErrorView {
    NodeError { code: ErrorNumber, msg: Seq<char> },
    UnKnown(Seq<char>),
}

impl View for IPCError {
    type V = IPCErrorView;

    open spec fn view(&self) -> IPCErrorView {
        match self {
            IPCError::NodeError { code, msg } => IPCErrorView::NodeError { code: *code, msg: msg@ },
            IPCError::UnKnown(m) => IPCErrorView::UnKnown(m@),
        }
    }
}

/// The text that describes an error.
pub open spec fn error_message(e: IPCErrorView) -> Seq<char> {
    match e {
        IPCErrorView::NodeError { code, msg } => "node error code("@ + error_name(code) + "): "@ + msg,
        IPCErrorView::UnKnown(m) => "unknown error: "@ + m,
    }
}

/// One field of an error record as it is read off the wire, in the order
/// the fields come.
pub enum WireField {
    Code(u8),
    Msg(String),
}

pub enum WireFieldView {
    Code(u8),
    Msg(Seq<char>),
}

impl View for WireField {
    type V = WireFieldView;

    open spec fn view(&self) -> WireFieldView {
        match self {
            WireField::Code(c) => WireFieldView::Code(*c),
            WireField::Msg(m) => WireFieldView::Msg(m@),
        }
    }
}

/// Why an error record could not be read.
#[derive(Clone, Copy, Debug, PartialEq, Eq, Structural)]
pub enum DecodeError {
    DuplicateCode,
    DuplicateMsg,
    MissingCode,
    MissingMsg,
    UnknownCode(u8),
}

/// What has been read of a record after its first `n` fields.
pub open spec fn decode_prefix(fields: Seq<WireFieldView>, n: nat) -> Result<
    (Option<ErrorNumber>, Option<Seq<char>>),
    DecodeError,
>
    decreases n,
{
    if n == 0 {
        Ok((None, None))
    } else {
        match decode_prefix(fields, (n - 1) as nat) {
            Err(e) => Err(e),
            Ok((c, m)) => match fields[n - 1] {
                WireFieldView::Code(x) => if c is Some {
                    Err(DecodeError::DuplicateCode)
                } else {
                    match error_of_code(x) {
                        None => Err(DecodeError::UnknownCode(x)),
                        Some(e) => Ok((Some(e), m)),
                    }
                },
                WireFieldView::Msg(s) => if m is Some {
                    Err(DecodeError::DuplicateMsg)
                } else {
                    Ok((c, Some(s)))
                },
            },
        }
    }
}

/// The node error a record stands for, or why it cannot be read.
pub open spec fn decode_record(fields: Seq<WireFieldView>) -> Result<IPCErrorView, DecodeError> {
    match decode_prefix(fields, fields.len()) {
        Err(e) => Err(e),
        Ok((None, _)) => Err(DecodeError::MissingCode),
        Ok((Some(_), None)) => Err(DecodeError::MissingMsg),
        Ok((Some(c), Some(m))) => Ok(IPCErrorView::NodeError { code: c, msg: m }),
    }
}

/// How an error goes on the wire: a node error as a record of its number
/// and message, any other error as its bare text.
pub enum WireValue {
    Record { code: u8, msg: String },
    Text(String),
}

impl IPCError {
    /// The text that describes the error.
    pub fn message(&self) -> (r: String)
        ensures
            r@ == error_message(self@),
    {
        match self {
            IPCError::NodeError { code, msg } => {
                let s = String::from_str("node error code(");
                let s = s.concat(code.name());
                let s = s.concat("): ");
                s.concat(msg.as_str())
            },
            IPCError::UnKnown(err) => {
                let s = String::from_str("unknown error: ");
                s.concat(err.as_str())
            },
        }
    }

    /// The wire form of the error.
    pub fn to_wire(&self) -> (r: WireValue)
        ensures
            match (self@, r) {
                (IPCErrorView::NodeError { code, msg }, WireValue::Record { code: c, msg: m }) => c
                    == error_code(code) && m@ == msg,
                (IPCErrorView::UnKnown(t), WireValue::Text(s)) => s@ == t,
                _ => false,
            },
    {
        match self {
            IPCError::NodeError { code, msg } => WireValue::Record { code: code.code(), msg: msg.clone() },
            IPCError::UnKnown(t) => WireValue::Text(t.clone()),
        }
    }

    /// The error that a bare text on the wire stands for.
    pub fn from_text(text: String) -> (r: IPCError)
        ensures
            r@ == IPCErrorView::UnKnown(text@),
    {
        IPCError::UnKnown(text)
    }

    /// The node error a record stands for, given its fields in the order
    /// they came; a repeated field is refused where it occurs, a missing
    /// code before a missing message.
    pub fn from_record(fields: Vec<WireField>) -> (r: Result<IPCError, DecodeError>)
        ensures
            match (r, decode_record(fields@.map_values(|f: WireField| f@))) {
                (Ok(e), Ok(v)) => e@ == v,
                (Err(a), Err(b)) => a == b,
                _ => false,
            },
    {
        let ghost fs = fields@.map_values(|f: WireField| f@);
        let mut code: Option<ErrorNumber> = None;
        let mut msg: Option<String> = None;
        let mut pending = fields;
        let ghost all = pending@;
        let mut rev: Vec<WireField> = Vec::new();
        // take the fields front to back
        while pending.len() > 0
            invariant
                pending@.len() + rev@.len() == all.len(),
                forall|j: int| 0 <= j < pending@.len() ==> #[trigger] pending@[j] == all[j],
                forall|j: int| 0 <= j < rev@.len() ==> #[trigger] rev@[j] == all[all.len() - 1 - j],
            decreases pending@.len(),
        {
            let f = pending.pop().unwrap();
            rev.push(f);
        }
        let n = rev.len();
        let mut i: usize = 0;
        while i < n
            invariant
                n == all.len(),
                rev@.len() + i == n,
                fs == all.map_values(|f: WireField| f@),
                fs == fields@.map_values(|f: WireField| f@),
                forall|j: int| 0 <= j < rev@.len() ==> #[trigger] rev@[j] == all[all.len() - 1 - j],
                i <= n,
                decode_prefix(fs, i as nat) matches Ok((c, m)) && c == code && (m is Some <==> msg is Some)
                    && (msg matches Some(s) ==> m == Some(s@)),
            decreases n - i,
        {
            let f = rev.pop().unwrap();
            assert(f == all[i as int]);
            assert(fs[i as int] == f@);
            match f {
                WireField::Code(x) => {
                    if code.is_some() {
                        proof {
                            assert(decode_prefix(fs, (i + 1) as nat) == Err::<(Option<ErrorNumber>, Option<Seq<char>>), DecodeError>(DecodeError::DuplicateCode));
                            lemma_prefix_error_sticks(fs, (i + 1) as nat, fs.len());
                        }
                        return Err(DecodeError::DuplicateCode);
                    }
                    match ErrorNumber::from_code(x) {
                        None => {
                            proof {
                                assert(decode_prefix(fs, (i + 1) as nat) == Err::<(Option<ErrorNumber>, Option<Seq<char>>), DecodeError>(DecodeError::UnknownCode(x)));
                                lemma_prefix_error_sticks(fs, (i + 1) as nat, fs.len());
                            }
                            return Err(DecodeError::UnknownCode(x));
                        },
                        Some(e) => {
                            code = Some(e);
                        },
                    }
                },
                WireField::Msg(s) => {
                    if msg.is_some() {
                        proof {
                            assert(decode_prefix(fs, (i + 1) as nat) == Err::<(Option<ErrorNumber>, Option<Seq<char>>), DecodeError>(DecodeError::DuplicateMsg));
                            lemma_prefix_error_sticks(fs, (i + 1) as nat, fs.len());
                        }
                        return Err(DecodeError::DuplicateMsg);
                    }
                    msg = Some(s);
                },
            }
            i = i + 1;
        }
        assert(fs.len() == n);
        match code {
            None => Err(DecodeError::MissingCode),
            Some(c) => match msg {
                None => Err(DecodeError::MissingMsg),
                Some(m) => Ok(IPCError::NodeError { code: c, msg: m }),
            },
        }
    }
}

/// Once reading a record has failed, reading more fields keeps the failure.
pub proof fn lemma_prefix_error_sticks(fields: Seq<WireFieldView>, i: nat, n: nat)
    requires
        i <= n,
        decode_prefix(fields, i) is Err,
    ensures
        decode_prefix(fields, n) == decode_prefix(fields, i),
    decreases n - i,
{
    if i < n {
        lemma_prefix_error_sticks(fields, i, (n - 1) as nat);
    }
}

/// Law of the wire form: a node error written as a record of its number and
/// message is read back as the same error, whichever field comes first.
pub proof fn lemma_record_round_trip(code: ErrorNumber, msg: Seq<char>)
    ensures
        decode_record(seq![WireFieldView::Code(error_code(code)), WireFieldView::Msg(msg)])
            == Ok::<IPCErrorView, DecodeError>(IPCErrorView::NodeError { code, msg }),
        decode_record(seq![WireFieldView::Msg(msg), WireFieldView::Code(error_code(code))])
            == Ok::<IPCErrorView, DecodeError>(IPCErrorView::NodeError { code, msg }),
{
    let a = seq![WireFieldView::Code(error_code(code)), WireFieldView::Msg(msg)];
    let b = seq![WireFieldView::Msg(msg), WireFieldView::Code(error_code(code))];
    assert(decode_prefix(a, 0) == Ok::<(Option<ErrorNumber>, Option<Seq<char>>), DecodeError>((None, None)));
    assert(a[0] == WireFieldView::Code(error_code(code)));
    assert(a[1] == WireFieldView::Msg(msg));
    assert(b[0] == WireFieldView::Msg(msg));
    assert(b[1] == WireFieldView::Code(error_code(code)));
    assert(decode_prefix(b, 0) == Ok::<(Option<ErrorNumber>, Option<Seq<char>>), DecodeError>((None, None)));
    assert(decode_prefix(a, 1) == Ok::<(Option<ErrorNumber>, Option<Seq<char>>), DecodeError>((Some(code), None)));
    assert(decode_prefix(a, 2) == Ok::<(Option<ErrorNumber>, Option<Seq<char>>), DecodeError>((Some(code), Some(msg))));
    assert(decode_prefix(b, 1) == Ok::<(Option<ErrorNumber>, Option<Seq<char>>), DecodeError>((None, Some(msg))));
    assert(decode_prefix(b, 2) == Ok::<(Option<ErrorNumber>, Option<Seq<char>>), DecodeError>((Some(code), Some(msg))));
}

} // verus!
