//! The uniform response envelope and the error that replaces it on failure.

use vstd::prelude::*;

verus! {

/// Code carried by every successful envelope.
pub const SUCCESS_CODE: u16 = 200;

/// Code carried by every error, whatever went wrong.
pub const FAILURE_CODE: u16 = 401;

/// Message carried by every successful envelope.
pub open spec fn success_msg() -> Seq<char> {
    "is ok"@
}

/// Message of the error sent when no database handle is attached
/// ("connecting to the database failed").
pub open spec fn no_database_msg() -> Seq<char> {
    "连接数据库失败"@
}

/// Response envelope: a code, a message and a payload.
#[derive(Debug)]
pub struct ResData<T> {
    pub code: u16,
    pub msg: String,
    pub data: T,
}

/// What an envelope says: its code, the text of its message, its payload.
pub struct ResDataView<T> {
    pub code: int,
    pub msg: Seq<char>,
    pub data: T,
}

impl<T> View for ResData<T> {
    type V = ResDataView<T>;

    open spec fn view(&self) -> ResDataView<T> {
        ResDataView { code: self.code as int, msg: self.msg@, data: self.data }
    }
}

impl<T> ResDataView<T> {
    /// A freshly made envelope before anything was filled in: code 0, no message.
    pub open spec fn is_blank(self) -> bool {
        self.code == 0 && self.msg == Seq::<char>::empty()
    }

    /// The same envelope around another payload.
    pub open spec fn with_data(self, data: T) -> Self {
        ResDataView { data, ..self }
    }

    /// The envelope of a successful call that yields `data`.
    pub open spec fn success(data: T) -> Self {
        ResDataView { code: SUCCESS_CODE as int, msg: success_msg(), data }
    }
}

impl<T> ResData<T> {
    /// Wraps the payload of a successful call.
    pub fn success(data: T) -> (r: Self)
        ensures
            r@ == ResDataView::success(data),
    {
        ResData { code: SUCCESS_CODE, msg: "is ok".to_owned(), data }
    }

    /// Replaces the payload and keeps code and message.
    pub fn with_data(self, data: T) -> (r: Self)
        ensures
            r@ == self@.with_data(data),
    {
        ResData { data, ..self }
    }
}

impl<T: Default> Default for ResData<T> {
    /// Code 0, the empty message, and whatever `T` defaults to.
    fn default() -> (r: Self)
        ensures
            r@.is_blank(),
            call_ensures(T::default, (), r.data),
    {
        ResData { code: 0, msg: String::new(), data: T::default() }
    }
}

/// Envelope of the list endpoints: a page of results and the number of all
/// results that match, of which the page may hold only a part.
#[derive(Debug)]
pub struct PageData<T> {
    pub code: u16,
    pub msg: String,
    pub data: T,
    pub total: u64,
}

/// What a page envelope says.
pub struct PageDataView<T> {
    pub code: int,
    pub msg: Seq<char>,
    pub data: T,
    pub total: nat,
}

impl<T> View for PageData<T> {
    type V = PageDataView<T>;

    open spec fn view(&self) -> PageDataView<T> {
        PageDataView {
            code: self.code as int,
            msg: self.msg@,
            data: self.data,
            total: self.total as nat,
        }
    }
}

impl<T> PageDataView<T> {
    /// A freshly made page envelope: code 0, no message, nothing counted.
    pub open spec fn is_blank(self) -> bool {
        self.code == 0 && self.msg == Seq::<char>::empty() && self.total == 0
    }

    /// The envelope of a successful listing: the page `data` out of `total` matches.
    pub open spec fn success(data: T, total: nat) -> Self {
        PageDataView { code: SUCCESS_CODE as int, msg: success_msg(), data, total }
    }
}

impl<T> PageData<T> {
    /// Wraps one page of a successful listing together with the count of all matches.
    pub fn success(data: T, total: u64) -> (r: Self)
        ensures
            r@ == PageDataView::success(data, total as nat),
    {
        PageData { code: SUCCESS_CODE, msg: "is ok".to_owned(), data, total }
    }
}

impl<T: Default> Default for PageData<T> {
    /// Code 0, the empty message, a total of 0, and whatever `T` defaults to.
    fn default() -> (r: Self)
        ensures
            r@.is_blank(),
            call_ensures(T::default, (), r.data),
    {
        PageData { code: 0, msg: String::new(), data: T::default(), total: 0 }
    }
}

/// A failed request: a code and a message for the client.
#[derive(Debug)]
pub struct ResError {
    pub code: u16,
    pub msg: String,
}

/// What an error says: its code and the text of its message.
pub struct ResErrorView {
    pub code: int,
    pub msg: Seq<char>,
}

impl View for ResError {
    type V = ResErrorView;

    open spec fn view(&self) -> ResErrorView {
        ResErrorView { code: self.code as int, msg: self.msg@ }
    }
}

impl ResErrorView {
    /// The error that reports a failure of the service layer: the fixed
    /// failure code and the service's own message, unchanged.
    pub open spec fn rejected(msg: Seq<char>) -> Self {
        ResErrorView { code: FAILURE_CODE as int, msg }
    }

    /// The error sent when no database handle is attached.
    pub open spec fn no_database() -> Self {
        Self::rejected(no_database_msg())
    }
}

/// Builds the error with the given code and message.
pub fn res_error(code: u16, msg: String) -> (e: ResError)
    ensures
        e@ == (ResErrorView { code: code as int, msg: msg@ }),
{
    ResError { code, msg }
}

impl ResError {
    /// Reports a failure of the service layer under the fixed failure code.
    pub fn rejected(msg: String) -> (e: Self)
        ensures
            e@ == ResErrorView::rejected(msg@),
    {
        res_error(FAILURE_CODE, msg)
    }

    /// The error sent when no database handle is attached.
    pub fn no_database() -> (e: Self)
        ensures
            e@ == ResErrorView::no_database(),
    {
        res_error(FAILURE_CODE, "连接数据库失败".to_owned())
    }
}

/// Giving an envelope a payload changes neither its code nor its message: a
/// blank envelope that is handed a payload is still blank, and holds that payload.
pub proof fn lemma_payload_leaves_header<T>(envelope: ResDataView<T>, data: T)
    ensures
        envelope.with_data(data).code == envelope.code,
        envelope.with_data(data).msg == envelope.msg,
        envelope.with_data(data).data == data,
        envelope.is_blank() ==> envelope.with_data(data).is_blank(),
{
}

} // verus!
