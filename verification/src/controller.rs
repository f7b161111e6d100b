//! The handlers, one per endpoint, as step functions.
//!
//! A handler never calls the service layer itself. It is told what happened
//! and answers with what to do next; its driver makes the call and comes back
//! with the outcome:
//!
//! 1. the driver hands over [`Event::Request`] with the request's parameters;
//! 2. the handler answers [`Action::Call`] with the database handle and the
//!    same parameters, or [`Action::Reply`] with an error when no handle is
//!    attached;
//! 3. the driver calls the service layer and hands over [`Event::Outcome`];
//! 4. the handler answers [`Action::Reply`] with the response.

use vstd::prelude::*;
use crate::envelope::{PageData, PageDataView, ResData, ResDataView, ResError, ResErrorView};
use crate::state::AppState;

verus! {

/// What a handler is told.
#[derive(Debug)]
pub enum Event<Q, T> {
    /// A request arrived, with these parameters.
    Request(Q),
    /// The service layer was called for the request and returned this:
    /// a value, or a message that says what went wrong.
    Outcome(Result<T, String>),
}

/// What a handler wants done next.
#[derive(Debug)]
pub enum Action<'a, D, Q, R> {
    /// Call the service layer with this database handle and these parameters.
    Call(&'a D, Q),
    /// Send this and be done with the request.
    Reply(Result<R, ResError>),
}

/// What a handler decides, stripped of how the reply is laid out.
pub enum Decision<D, Q, T> {
    /// The service layer is to be called with this handle and these parameters.
    Call(D, Q),
    /// The request succeeded with this value.
    Succeed(T),
    /// The request failed with this error.
    Fail(ResErrorView),
}

/// The decision that every handler which needs the database takes.
///
/// Without a database handle the request fails at once, whatever the event.
/// With one, a request leads to a call with the request's own parameters, a
/// value from the service layer to success with that value, and a message
/// from the service layer to an error with that message.
pub open spec fn decide<D, Q, T>(db: Option<D>, event: Event<Q, T>) -> Decision<D, Q, T> {
    match db {
        None => Decision::Fail(ResErrorView::no_database()),
        Some(handle) => match event {
            Event::Request(request) => Decision::Call(handle, request),
            Event::Outcome(Ok(value)) => Decision::Succeed(value),
            Event::Outcome(Err(msg)) => Decision::Fail(ResErrorView::rejected(msg@)),
        },
    }
}

/// An envelope that only confirms: the success header around the empty string.
pub open spec fn is_confirmation(body: ResDataView<String>) -> bool {
    body == ResDataView::success(body.data) && body.data@ == Seq::<char>::empty()
}

impl<'a, D, Q, R> Action<'a, D, Q, R> {
    /// This action is a call with exactly this handle and these parameters.
    pub open spec fn calls(self, handle: D, request: Q) -> bool {
        self == Action::<D, Q, R>::Call(&handle, request)
    }

    /// This action is a reply with an error that says exactly this.
    pub open spec fn fails_with(self, error: ResErrorView) -> bool {
        self matches Action::Reply(Err(e)) && e@ == error
    }
}

impl<'a, D, Q> Action<'a, D, Q, ResData<String>> {
    /// This action carries out `decision` for an endpoint that answers a
    /// success with a bare confirmation: the value is dropped.
    pub open spec fn confirms<T>(self, decision: Decision<D, Q, T>) -> bool {
        match decision {
            Decision::Call(handle, request) => self.calls(handle, request),
            Decision::Succeed(_) => self matches Action::Reply(Ok(body)) && is_confirmation(body@),
            Decision::Fail(error) => self.fails_with(error),
        }
    }
}

impl<'a, D, Q, T> Action<'a, D, Q, ResData<T>> {
    /// This action carries out `decision` for an endpoint that answers a
    /// success with the value itself.
    pub open spec fn delivers(self, decision: Decision<D, Q, T>) -> bool {
        match decision {
            Decision::Call(handle, request) => self.calls(handle, request),
            Decision::Succeed(value) => self matches Action::Reply(Ok(body)) && body@
                == ResDataView::success(value),
            Decision::Fail(error) => self.fails_with(error),
        }
    }
}

impl<'a, D, Q, U> Action<'a, D, Q, PageData<Vec<U>>> {
    /// This action carries out `decision` for an endpoint that lists: the
    /// value is one page and the count of all matches.
    pub open spec fn delivers_page(self, decision: Decision<D, Q, (Vec<U>, u64)>) -> bool {
        match decision {
            Decision::Call(handle, request) => self.calls(handle, request),
            Decision::Succeed(value) => self matches Action::Reply(Ok(body)) && body@
                == PageDataView::success(value.0, value.1 as nat),
            Decision::Fail(error) => self.fails_with(error),
        }
    }
}

/// Step of an endpoint that confirms.
fn confirm<'a, D, Q, T>(state: &'a AppState<D>, event: Event<Q, T>) -> (action: Action<
    'a,
    D,
    Q,
    ResData<String>,
>)
    ensures
        action.confirms(decide(state.mon_db, event)),
{
    match state.database() {
        Err(error) => Action::Reply(Err(error)),
        Ok(handle) => match event {
            Event::Request(request) => Action::Call(handle, request),
            Event::Outcome(Ok(_)) => Action::Reply(Ok(ResData::success(String::new()))),
            Event::Outcome(Err(msg)) => Action::Reply(Err(ResError::rejected(msg))),
        },
    }
}

/// Step of an endpoint that hands out what the service layer found.
fn deliver<'a, D, Q, T>(state: &'a AppState<D>, event: Event<Q, T>) -> (action: Action<
    'a,
    D,
    Q,
    ResData<T>,
>)
    ensures
        action.delivers(decide(state.mon_db, event)),
{
    match state.database() {
        Err(error) => Action::Reply(Err(error)),
        Ok(handle) => match event {
            Event::Request(request) => Action::Call(handle, request),
            Event::Outcome(Ok(value)) => Action::Reply(Ok(ResData::success(value))),
            Event::Outcome(Err(msg)) => Action::Reply(Err(ResError::rejected(msg))),
        },
    }
}

/// Step of an endpoint that lists.
fn deliver_page<'a, D, Q, U>(state: &'a AppState<D>, event: Event<Q, (Vec<U>, u64)>) -> (action:
    Action<'a, D, Q, PageData<Vec<U>>>)
    ensures
        action.delivers_page(decide(state.mon_db, event)),
{
    match state.database() {
        Err(error) => Action::Reply(Err(error)),
        Ok(handle) => match event {
            Event::Request(request) => Action::Call(handle, request),
            Event::Outcome(Ok(value)) => {
                let (page, total) = value;
                Action::Reply(Ok(PageData::success(page, total)))
            },
            Event::Outcome(Err(msg)) => Action::Reply(Err(ResError::rejected(msg))),
        },
    }
}

/// Parameters of a listing.
#[derive(Debug)]
pub struct PageQuery {
    /// Which page.
    pub page_num: u64,
    /// How many entries a page holds.
    pub page_size: i64,
    /// The key to sort by.
    pub sort: String,
}

/// Parameters of a search.
#[derive(Debug)]
pub struct SearchQuery {
    /// What to look for.
    pub con: String,
    /// Which page.
    pub page_num: u64,
    /// How many entries a page holds.
    pub page_size: i64,
}

/// Health check. Needs no database and calls nothing: the reply is always
/// the bare confirmation.
pub fn ping() -> (body: ResData<String>)
    ensures
        is_confirmation(body@),
{
    ResData::success(String::new())
}

/// Creates a user from the fields in `Q`; confirms.
pub fn add_user<'a, D, Q, T>(state: &'a AppState<D>, event: Event<Q, T>) -> (action: Action<
    'a,
    D,
    Q,
    ResData<String>,
>)
    ensures
        action.confirms(decide(state.mon_db, event)),
{
    confirm(state, event)
}

/// Changes a user to the fields in `Q`; confirms.
pub fn update_user<'a, D, Q, T>(state: &'a AppState<D>, event: Event<Q, T>) -> (action: Action<
    'a,
    D,
    Q,
    ResData<String>,
>)
    ensures
        action.confirms(decide(state.mon_db, event)),
{
    confirm(state, event)
}

/// Looks up the user with the given identifier; hands out the user found.
pub fn get_user<'a, D, U>(state: &'a AppState<D>, event: Event<String, U>) -> (action: Action<
    'a,
    D,
    String,
    ResData<U>,
>)
    ensures
        action.delivers(decide(state.mon_db, event)),
{
    deliver(state, event)
}

/// Deletes the user or users named in the given path segment; confirms.
pub fn del_user<'a, D, T>(state: &'a AppState<D>, event: Event<String, T>) -> (action: Action<
    'a,
    D,
    String,
    ResData<String>,
>)
    ensures
        action.confirms(decide(state.mon_db, event)),
{
    confirm(state, event)
}

/// Lists users page by page; hands out one page and the count of all users.
pub fn get_users<'a, D, U>(state: &'a AppState<D>, event: Event<PageQuery, (Vec<U>, u64)>) -> (action:
    Action<'a, D, PageQuery, PageData<Vec<U>>>)
    ensures
        action.delivers_page(decide(state.mon_db, event)),
{
    deliver_page(state, event)
}

/// Searches users; hands out one page of matches and the count of all matches.
pub fn search_user<'a, D, U>(
    state: &'a AppState<D>,
    event: Event<SearchQuery, (Vec<U>, u64)>,
) -> (action: Action<'a, D, SearchQuery, PageData<Vec<U>>>)
    ensures
        action.delivers_page(decide(state.mon_db, event)),
{
    deliver_page(state, event)
}

/// Creates a menu entry from the fields in `Q`; confirms.
pub fn add_menu<'a, D, Q, T>(state: &'a AppState<D>, event: Event<Q, T>) -> (action: Action<
    'a,
    D,
    Q,
    ResData<String>,
>)
    ensures
        action.confirms(decide(state.mon_db, event)),
{
    confirm(state, event)
}

/// Reads the menu; hands out its entries.
pub fn get_menu<'a, D, M>(state: &'a AppState<D>, event: Event<(), Vec<M>>) -> (action: Action<
    'a,
    D,
    (),
    ResData<Vec<M>>,
>)
    ensures
        action.delivers(decide(state.mon_db, event)),
{
    deliver(state, event)
}

/// Without a database handle a handler that needs one fails with the error
/// that says so, whatever it is told: it asks for no call, not even when a
/// request arrives, and it passes on no outcome. This holds however the
/// handler lays out its replies.
pub proof fn lemma_no_database_no_call<D, Q, T, U>(
    event: Event<Q, T>,
    listing: Event<Q, (Vec<U>, u64)>,
    confirmed: Action<D, Q, ResData<String>>,
    delivered: Action<D, Q, ResData<T>>,
    listed: Action<D, Q, PageData<Vec<U>>>,
)
    requires
        confirmed.confirms(decide(None::<D>, event)),
        delivered.delivers(decide(None::<D>, event)),
        listed.delivers_page(decide(None::<D>, listing)),
    ensures
        decide(None::<D>, event) == Decision::<D, Q, T>::Fail(ResErrorView::no_database()),
        ResErrorView::no_database() == (ResErrorView { code: 401, msg: "连接数据库失败"@ }),
        confirmed !is Call && confirmed.fails_with(ResErrorView::no_database()),
        delivered !is Call && delivered.fails_with(ResErrorView::no_database()),
        listed !is Call && listed.fails_with(ResErrorView::no_database()),
{
}

/// A call is asked for in one case only: a request arrives and a database
/// handle is attached. The call then gets that handle and the request's
/// parameters as they came.
pub proof fn lemma_call_needs_database<D, Q, T>(db: Option<D>, event: Event<Q, T>)
    ensures
        decide(db, event) is Call <==> db is Some && event is Request,
        decide(db, event) is Call ==> decide(db, event) == Decision::<D, Q, T>::Call(
            db->Some_0,
            event->Request_0,
        ),
{
}

/// Once the service layer has answered, the handler replies: it never asks
/// for a second call, so a request costs one call at most.
pub proof fn lemma_outcome_ends_request<D, Q, T>(db: Option<D>, outcome: Result<T, String>)
    ensures
        decide(db, Event::<Q, T>::Outcome(outcome)) !is Call,
{
}

/// A handler reports success in one case only: a database handle is attached
/// and the service layer returned a value. However the reply is laid out, it
/// then carries code 200 and the message "is ok".
pub proof fn lemma_success_header<D, Q, T, U>(
    db: Option<D>,
    event: Event<Q, T>,
    listing: Event<Q, (Vec<U>, u64)>,
    confirmed: Action<D, Q, ResData<String>>,
    delivered: Action<D, Q, ResData<T>>,
    listed: Action<D, Q, PageData<Vec<U>>>,
)
    requires
        confirmed.confirms(decide(db, event)),
        delivered.delivers(decide(db, event)),
        listed.delivers_page(decide(db, listing)),
    ensures
        decide(db, event) is Succeed <==> db is Some && event matches Event::Outcome(Ok(_)),
        decide(db, event) is Succeed ==> {
            &&& confirmed matches Action::Reply(Ok(body))
            &&& body@.code == 200
            &&& body@.msg == "is ok"@
        },
        decide(db, event) is Succeed ==> {
            &&& delivered matches Action::Reply(Ok(body))
            &&& body@.code == 200
            &&& body@.msg == "is ok"@
        },
        decide(db, listing) is Succeed ==> {
            &&& listed matches Action::Reply(Ok(body))
            &&& body@.code == 200
            &&& body@.msg == "is ok"@
        },
{
}

/// A message from the service layer reaches the client unchanged, under the
/// fixed failure code.
pub proof fn lemma_failure_keeps_message<D, Q, T>(db: D, msg: String)
    ensures
        decide(Some(db), Event::<Q, T>::Outcome(Err(msg))) == Decision::<D, Q, T>::Fail(
            ResErrorView { code: 401, msg: msg@ },
        ),
{
}

/// The total of a listing is the count that the service layer gave, and the
/// page is the page that it gave: neither is derived from the other, so the
/// total is the same for a full page, a short one and an empty one.
pub proof fn lemma_total_is_the_count<D, Q, U>(
    db: D,
    page: Vec<U>,
    total: u64,
    listed: Action<D, Q, PageData<Vec<U>>>,
)
    requires
        listed.delivers_page(decide(Some(db), Event::<Q, (Vec<U>, u64)>::Outcome(Ok((page, total))))),
    ensures
        listed matches Action::Reply(Ok(body)) && body@.total == total && body@.data == page,
{
}

} // verus!
