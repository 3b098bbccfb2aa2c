use vstd::prelude::*;

use crate::sink::MessageSink;
use crate::task::CancellableTask;
use crate::task::TaskError;

verus! {

/// A byte a header value may carry while still being representable as text:
/// visible ASCII (including space) or horizontal tab.
pub open spec fn is_text_byte(b: u8) -> bool {
    (32 <= b && b <= 126) || b == 9
}

/// Whether every byte of a header value is representable as text.
pub open spec fn value_is_text(v: Seq<u8>) -> bool {
    forall|i: int| 0 <= i < v.len() ==> is_text_byte(#[trigger] v[i])
}

/// Whether every header value of a request is representable as text.
pub open spec fn headers_text_ok(hs: Seq<(Seq<char>, Seq<u8>)>) -> bool {
    forall|i: int| 0 <= i < hs.len() ==> value_is_text(#[trigger] hs[i].1)
}

/// `i` is the first header whose value is not representable as text.
pub open spec fn first_untext_header(hs: Seq<(Seq<char>, Seq<u8>)>, i: int) -> bool {
    &&& 0 <= i < hs.len()
    &&& !value_is_text(hs[i].1)
    &&& forall|j: int| 0 <= j < i ==> value_is_text(#[trigger] hs[j].1)
}

/// Reports whether every byte of one header value is representable as text.
fn bytes_are_text(v: &Vec<u8>) -> (r: bool)
    ensures
        r == value_is_text(v@),
{
    let n = v.len();
    let mut i: usize = 0;
    while i < n
        invariant
            n == v@.len(),
            i <= n,
            forall|j: int| 0 <= j < i ==> is_text_byte(#[trigger] v@[j]),
        decreases n - i,
    {
        let b = v[i];
        if !((32 <= b && b <= 126) || b == 9) {
            return false;
        }
        i += 1;
    }
    true
}

/// The descriptor of one network request: method, URL, headers and body, as
/// plain values. Header values are byte strings, as the wire allows; whether
/// they are representable as text is checked when a task is created.
#[derive(Debug)]
pub struct FetchRequest {
    /// The request method, e.g. `GET`.
    pub method: String,
    /// The absolute request URL.
    pub url: String,
    /// Header fields, name and raw value, in order.
    pub headers: Vec<(String, Vec<u8>)>,
    /// The request body.
    pub body: String,
}

/// The mathematical value of a [`FetchRequest`].
pub struct RequestModel {
    pub method: Seq<char>,
    pub url: Seq<char>,
    pub headers: Seq<(Seq<char>, Seq<u8>)>,
    pub body: Seq<char>,
}

impl View for FetchRequest {
    type V = RequestModel;

    open spec fn view(&self) -> RequestModel {
        RequestModel {
            method: self.method@,
            url: self.url@,
            headers: self.headers@.map_values(|h: (String, Vec<u8>)| (h.0@, h.1@)),
            body: self.body@,
        }
    }
}

/// What one transfer delivered: status code, headers and body text. A
/// transport-level failure is folded into the message stream too — the
/// hosting layer hands a synthetic failure response here, since whether a
/// non-success outcome is exceptional is the application's decision.
#[derive(Debug)]
pub struct FetchResponse {
    /// The response status code; `0` conventionally stands for a transfer
    /// that failed below HTTP.
    pub status: u16,
    /// The response headers, name and text value.
    pub headers: Vec<(String, String)>,
    /// The response body text.
    pub body: String,
}

/// The mathematical value of a [`FetchResponse`].
pub struct ResponseModel {
    pub status: u16,
    pub headers: Seq<(Seq<char>, Seq<char>)>,
    pub body: Seq<char>,
}

impl View for FetchResponse {
    type V = ResponseModel;

    open spec fn view(&self) -> ResponseModel {
        ResponseModel {
            status: self.status,
            headers: self.headers@.map_values(|h: (String, String)| (h.0@, h.1@)),
            body: self.body@,
        }
    }
}

/// The one-shot completion token of a request task. Exactly one of
/// resolution and cancellation moves it out of `Pending`, and it never moves
/// again: this is the only state two logical actors (the cancelling caller
/// and the completion callback) both touch, and the guard on it is what
/// makes their effects mutually exclusive.
#[derive(Clone, Copy, Debug, PartialEq, Eq)]
pub enum Completion {
    /// The transfer is outstanding and its message is still owed.
    Pending,
    /// The transfer resolved and its message was delivered.
    Delivered,
    /// The task was cancelled; the eventual resolution will be discarded.
    Cancelled,
}

/// Whether a token still awaits its transition out of `Pending`.
pub open spec fn completion_active(c: Completion) -> bool {
    c is Pending
}

/// What cancellation does to the token: a pending task becomes cancelled,
/// anything else is left untouched.
pub open spec fn cancel_completion(c: Completion) -> Completion {
    if c is Pending {
        Completion::Cancelled
    } else {
        c
    }
}

/// What resolution of the transfer does to the token: a pending task has now
/// delivered, anything else is left untouched.
pub open spec fn resolve_completion(c: Completion) -> Completion {
    if c is Pending {
        Completion::Delivered
    } else {
        c
    }
}

/// What resolution of the transfer does to a message sequence: a pending
/// task appends exactly the translation of the delivered response, any other
/// token suppresses delivery entirely.
pub open spec fn resolve_messages<M>(
    c: Completion,
    tr: spec_fn(ResponseModel) -> M,
    resp: ResponseModel,
    msgs: Seq<M>,
) -> Seq<M> {
    if completion_active(c) {
        msgs.push(tr(resp))
    } else {
        msgs
    }
}

/// A handle to control one sent request.
///
/// The task issues exactly one transfer and owes the sink at most one
/// message. The transport has no abort primitive, so cancellation is
/// best-effort: it does not stop the transfer, it only suppresses the
/// delivery of its eventual result.
#[verifier::reject_recursive_types(M)]
pub struct FetchTask<M, G> where G: Fn(FetchResponse) -> M {
    translate: G,
    completion: Completion,
    request: FetchRequest,
    _msg: core::marker::PhantomData<M>,
}

/// The mathematical value of a [`FetchTask`]: its completion token and the
/// request it was created for.
pub struct FetchModel {
    pub completion: Completion,
    pub request: RequestModel,
}

impl<M, G> View for FetchTask<M, G> where G: Fn(FetchResponse) -> M {
    type V = FetchModel;

    closed spec fn view(&self) -> FetchModel {
        FetchModel { completion: self.completion, request: self.request@ }
    }
}

impl<M, G> FetchTask<M, G> where G: Fn(FetchResponse) -> M {
    /// The translation function accepts every response.
    pub closed spec fn wf(&self) -> bool {
        forall|resp: FetchResponse| #[trigger] call_requires(self.translate, (resp,))
    }

    /// What the stored translation function may return for a response.
    pub closed spec fn translate_ens(&self, resp: FetchResponse, m: M) -> bool {
        call_ensures(self.translate, (resp,), m)
    }

    /// Prepares one request for sending: validates that every header value
    /// is representable as text — failing with the name of the first header
    /// that is not — and returns the active task that owns the transfer's
    /// outcome. The hosting layer reads the request back to issue the actual
    /// transfer and later hands the resolution to [`FetchTask::resolve`].
    pub fn new(request: FetchRequest, translate: G) -> (r: Result<FetchTask<M, G>, TaskError>)
        requires
            forall|resp: FetchResponse| #[trigger] call_requires(translate, (resp,)),
        ensures
            headers_text_ok(request@.headers) ==> (r matches Ok(t) && t@ == (FetchModel {
                completion: Completion::Pending,
                request: request@,
            }) && t.task_active() && t.wf() && forall|resp: FetchResponse, m: M|
                #[trigger] t.translate_ens(resp, m) == call_ensures(translate, (resp,), m)),
            !headers_text_ok(request@.headers) ==> (r matches Err(e) && e matches
                TaskError::Encoding { header } && exists|i: int|
                #[trigger] first_untext_header(request@.headers, i) && header@
                    == request@.headers[i].0),
    {
        let n = request.headers.len();
        let mut i: usize = 0;
        while i < n
            invariant
                n == request.headers@.len(),
                i <= n,
                forall|j: int| 0 <= j < i ==> value_is_text(#[trigger] request@.headers[j].1),
        decreases n - i,
        {
            if !bytes_are_text(&request.headers[i].1) {
                let name = request.headers[i].0.clone();
                proof {
                    assert(first_untext_header(request@.headers, i as int));
                }
                return Err(TaskError::Encoding { header: name });
            }
            i += 1;
        }
        Ok(
            FetchTask {
                translate,
                completion: Completion::Pending,
                request,
                _msg: core::marker::PhantomData,
            },
        )
    }

    /// The request the task owns, which the hosting layer reads to issue the
    /// actual transfer.
    pub fn request(&self) -> (r: &FetchRequest)
        ensures
            r@ == self@.request,
    {
        &self.request
    }

    /// Resolution of the transfer: called once by the hosting layer when the
    /// response (or a synthetic failure response) arrives. A still-pending
    /// task delivers exactly one message, the translation of the delivered
    /// response, and goes inactive; a task already cancelled or delivered
    /// pushes nothing and does not change — cancellation's only observable
    /// effect is this suppression, since the transfer itself runs on.
    pub fn resolve(&mut self, response: FetchResponse, sink: &mut MessageSink<M>)
        requires
            old(self).wf(),
        ensures
            final(self).wf(),
            !final(self).task_active(),
            final(self)@.request == old(self)@.request,
            final(self)@.completion == resolve_completion(old(self)@.completion),
            forall|resp: FetchResponse, m: M|
                #[trigger] final(self).translate_ens(resp, m) == old(self).translate_ens(resp, m),
            old(self).task_active() ==> exists|m: M|
                #[trigger] old(self).translate_ens(response, m) && final(sink)@ == old(
                    sink,
                )@.push(m),
            !old(self).task_active() ==> final(sink)@ == old(sink)@ && *final(self) == *old(self),
    {
        match self.completion {
            Completion::Pending => {
                self.completion = Completion::Delivered;
                let ghost gresp = response;
                let m = (self.translate)(response);
                let ghost gm = m;
                sink.push(m);
                proof {
                    assert(old(self).translate_ens(gresp, gm));
                }
            },
            _ => {},
        }
    }
}

impl<M, G> CancellableTask for FetchTask<M, G> where G: Fn(FetchResponse) -> M {
    open spec fn task_active(&self) -> bool {
        completion_active(self@.completion)
    }

    fn is_active(&self) -> (r: bool) {
        match self.completion {
            Completion::Pending => true,
            _ => false,
        }
    }

    fn cancel(&mut self)
        ensures
            final(self)@.completion == cancel_completion(old(self)@.completion),
            final(self)@.request == old(self)@.request,
            old(self).wf() ==> final(self).wf(),
            forall|resp: FetchResponse, m: M|
                #[trigger] final(self).translate_ens(resp, m) == old(self).translate_ens(resp, m),
    {
        match self.completion {
            Completion::Pending => {
                self.completion = Completion::Cancelled;
            },
            _ => {},
        }
    }
}

impl<M, G> Drop for FetchTask<M, G> where G: Fn(FetchResponse) -> M {
    /// Destruction of the owner cancels a still-pending task: the transfer
    /// runs on, but its resolution has no one left to deliver through.
    fn drop(&mut self)
        opens_invariants none
        no_unwind
    {
        match self.completion {
            Completion::Pending => {
                self.completion = Completion::Cancelled;
            },
            _ => {},
        }
    }
}

/// Cancelling twice is the same as cancelling once, and the task reports
/// inactive both times: cancellation is idempotent, and the one-shot token
/// is consumed at most once, so nothing is released a second time.
pub proof fn lemma_fetch_cancel_idempotent(c: Completion)
    ensures
        cancel_completion(cancel_completion(c)) == cancel_completion(c),
        !completion_active(cancel_completion(c)),
{
}

/// Cancellation before the transfer resolves: the task is inactive the
/// moment cancellation returns, and the eventual resolution delivers
/// nothing — the response is silently discarded.
pub proof fn lemma_cancel_suppresses_delivery<M>(
    c: Completion,
    tr: spec_fn(ResponseModel) -> M,
    resp: ResponseModel,
    msgs: Seq<M>,
)
    ensures
        !completion_active(cancel_completion(c)),
        resolve_messages(cancel_completion(c), tr, resp, msgs) == msgs,
{
}

/// A task that resolves normally delivers exactly one message — the
/// translation of the response the transport handed over — and its activity
/// falls from true to false exactly once: a second resolution changes
/// neither the token nor the message sequence.
pub proof fn lemma_resolution_delivers_once<M>(
    tr: spec_fn(ResponseModel) -> M,
    resp: ResponseModel,
    later: ResponseModel,
    msgs: Seq<M>,
    more: Seq<M>,
)
    ensures
        completion_active(Completion::Pending),
        resolve_messages(Completion::Pending, tr, resp, msgs) == msgs.push(tr(resp)),
        !completion_active(resolve_completion(Completion::Pending)),
        resolve_completion(resolve_completion(Completion::Pending)) == resolve_completion(
            Completion::Pending,
        ),
        resolve_messages(resolve_completion(Completion::Pending), tr, later, more) == more,
{
}

/// A service that prepares resource fetches; creation of the tasks
/// themselves goes through [`FetchTask::new`].
pub struct FetchService {}

impl Default for FetchService {
    fn default() -> (r: Self)
        ensures
            r == (FetchService {  }),
    {
        FetchService {  }
    }
}

} // verus!
