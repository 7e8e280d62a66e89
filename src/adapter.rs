use vstd::prelude::*;

use crate::dispatcher::{
    consume_spec, consumed, held, publish_spec, BaseMessagingDispatcher, MessagingDispatcher,
    QueueMap,
};

verus! {

/// Status of a delivered message.
pub const STATUS_OK: u16 = 200;

/// Status of an accepted publish.
pub const STATUS_ACCEPTED: u16 = 202;

/// Status of a consume with nothing to deliver.
pub const STATUS_NO_CONTENT: u16 = 204;

/// Status of a request that matches no route.
pub const STATUS_NOT_FOUND: u16 = 404;

/// The path prefix under which queues are addressed.
pub open spec fn queue_prefix() -> Seq<char> {
    seq!['/', 'q', 'u', 'e', 'u', 'e', '/']
}

/// The characters of `s` up to its first `/`, or all of them when it has none.
pub open spec fn first_segment(s: Seq<char>) -> Seq<char>
    decreases s.len(),
{
    if s.len() == 0 || s[0] == '/' {
        Seq::empty()
    } else {
        seq![s[0]] + first_segment(s.drop_first())
    }
}

/// The queue a path addresses: the first segment after `/queue/`, when that is not empty.
pub open spec fn queue_name_in(path: Seq<char>) -> Option<Seq<char>> {
    if path.len() >= queue_prefix().len() && path.take(queue_prefix().len() as int)
        == queue_prefix() && first_segment(path.skip(queue_prefix().len() as int)).len() > 0 {
        Some(first_segment(path.skip(queue_prefix().len() as int)))
    } else {
        None
    }
}

/// Whether a method name is `GET`.
pub open spec fn is_get(method: Seq<char>) -> bool {
    method == seq!['G', 'E', 'T']
}

/// Whether a method name is `POST`.
pub open spec fn is_post(method: Seq<char>) -> bool {
    method == seq!['P', 'O', 'S', 'T']
}

/// What a request asks of the dispatcher.
pub enum Route {
    /// Deliver the head message of the named queue.
    Consume(String),
    /// Append the request body to the named queue.
    Publish(String),
    /// Nothing: the request matches no route.
    NotFound,
}

/// Whether `r` is the route of a request with method `method` and path `path`.
pub open spec fn routes_to(r: Route, method: Seq<char>, path: Seq<char>) -> bool {
    match r {
        Route::Consume(name) => is_get(method) && queue_name_in(path) == Some(name@),
        Route::Publish(name) => is_post(method) && queue_name_in(path) == Some(name@),
        Route::NotFound => !((is_get(method) || is_post(method)) && queue_name_in(path) is Some),
    }
}

/// What the dispatcher holds after a request, and the status and body of the response.
pub open spec fn handle_spec(m: QueueMap, method: Seq<char>, path: Seq<char>, body: Seq<u8>) -> (
    QueueMap,
    u16,
    Seq<u8>,
) {
    match queue_name_in(path) {
        Some(name) => if is_get(method) {
            match consumed(m, name) {
                Some(msg) => (consume_spec(m, name), STATUS_OK, msg),
                None => (m, STATUS_NO_CONTENT, Seq::empty()),
            }
        } else if is_post(method) {
            (publish_spec(m, name, body), STATUS_ACCEPTED, Seq::empty())
        } else {
            (m, STATUS_NOT_FOUND, Seq::empty())
        },
        None => (m, STATUS_NOT_FOUND, Seq::empty()),
    }
}

/// Relates `first_segment` to the position of the first `/`.
proof fn lemma_first_segment(s: Seq<char>, k: int)
    requires
        0 <= k <= s.len(),
        forall|j: int| 0 <= j < k ==> s[j] != '/',
        k == s.len() || s[k] == '/',
    ensures
        first_segment(s) == s.take(k),
    decreases k,
{
    if k > 0 {
        lemma_first_segment(s.drop_first(), k - 1);
        assert(seq![s[0]] + s.drop_first().take(k - 1) =~= s.take(k));
    } else {
        assert(s.take(0) =~= Seq::<char>::empty());
    }
}

/// The characters of a string.
fn chars_of(s: &str) -> (r: Vec<char>)
    ensures
        r@ == s@,
{
    let mut r: Vec<char> = Vec::new();
    for c in it: s.chars()
        invariant
            r@ == it.seq().take(it.index() as int),
    {
        r.push(c);
    }
    r
}

/// Whether `a` begins with `p`.
fn starts_with(a: &Vec<char>, p: &[char]) -> (r: bool)
    ensures
        r == (a@.len() >= p@.len() && a@.take(p@.len() as int) == p@),
{
    if a.len() < p.len() {
        return false;
    }
    let mut i: usize = 0;
    while i < p.len()
        invariant
            i <= p@.len() <= a@.len(),
            forall|j: int| 0 <= j < i ==> a@[j] == p@[j],
        decreases p@.len() - i,
    {
        if a[i] != p[i] {
            assert(a@.take(p@.len() as int)[i as int] != p@[i as int]);
            return false;
        }
        i += 1;
    }
    assert(a@.take(p@.len() as int) =~= p@);
    true
}

/// Decides what a request with method `method` and path `path` asks for.
pub fn route(method: &str, path: &str) -> (r: Route)
    ensures
        routes_to(r, method@, path@),
{
    let m = chars_of(method);
    let get_word: &[char] = &['G', 'E', 'T'];
    let post_word: &[char] = &['P', 'O', 'S', 'T'];
    assert(get_word@ =~= seq!['G', 'E', 'T']);
    assert(post_word@ =~= seq!['P', 'O', 'S', 'T']);
    let get = starts_with(&m, get_word) && m.len() == 3;
    let post = starts_with(&m, post_word) && m.len() == 4;
    proof {
        if m@.len() == 3 {
            assert(m@ =~= m@.take(3));
        }
        if m@.len() == 4 {
            assert(m@ =~= m@.take(4));
        }
        assert(get == is_get(m@));
        assert(post == is_post(m@));
    }
    if !get && !post {
        return Route::NotFound;
    }
    let p = chars_of(path);
    let prefix: &[char] = &['/', 'q', 'u', 'e', 'u', 'e', '/'];
    proof {
        assert(prefix@ =~= queue_prefix());
    }
    if !starts_with(&p, prefix) {
        return Route::NotFound;
    }
    let start: usize = prefix.len();
    let mut end: usize = start;
    while end < p.len() && p[end] != '/'
        invariant
            start <= end <= p@.len(),
            forall|j: int| start <= j < end ==> p@[j] != '/',
        decreases p@.len() - end,
    {
        end += 1;
    }
    let ghost rest = p@.skip(start as int);
    proof {
        lemma_first_segment(rest, end - start);
        assert(rest.take(end - start) =~= p@.subrange(start as int, end as int));
    }
    if end == start {
        return Route::NotFound;
    }
    let name = path.substring_char(start, end).to_owned();
    if get {
        Route::Consume(name)
    } else {
        Route::Publish(name)
    }
}

/// A request as the adapter sees it.
pub struct Request {
    pub method: String,
    pub path: String,
    pub body: Vec<u8>,
}

/// A response as the adapter produces it.
pub struct Response {
    pub status: u16,
    pub body: Vec<u8>,
}

/// Turns requests into responses.
pub trait Adapter {
    type Input;

    type Output;

    /// The adapter's internal invariant.
    spec fn wf(&self) -> bool;

    /// Handles one request.
    fn call(&mut self, input: Self::Input) -> (r: Self::Output)
        requires
            old(self).wf(),
        ensures
            final(self).wf(),
    ;
}

/// The adapter that owns the dispatcher and routes `GET /queue/{name}` to a consume and
/// `POST /queue/{name}` to a publish. Taking `&mut self`, it hands the dispatcher one
/// request at a time.
pub struct QueueAdapter {
    dispatcher: BaseMessagingDispatcher,
}

impl View for QueueAdapter {
    type V = QueueMap;

    closed spec fn view(&self) -> QueueMap {
        self.dispatcher@
    }
}

impl QueueAdapter {
    /// An adapter over an empty registry.
    pub fn new() -> (r: QueueAdapter)
        ensures
            r.wf(),
            r@ == QueueMap::empty(),
    {
        QueueAdapter { dispatcher: BaseMessagingDispatcher::new() }
    }
}

/// A response with a status and an empty body.
fn empty_response(status: u16) -> (r: Response)
    ensures
        r.status == status,
        r.body@ == Seq::<u8>::empty(),
{
    Response { status, body: Vec::new() }
}

impl Adapter for QueueAdapter {
    type Input = Request;

    type Output = Response;

    closed spec fn wf(&self) -> bool {
        self.dispatcher.wf()
    }

    fn call(&mut self, input: Request) -> (r: Response)
        ensures
            (final(self)@, r.status, r.body@) == handle_spec(
                old(self)@,
                input.method@,
                input.path@,
                input.body@,
            ),
    {
        match route(input.method.as_str(), input.path.as_str()) {
            Route::Consume(name) => match self.dispatcher.consume(name) {
                Ok(message) => Response { status: STATUS_OK, body: message },
                Err(_) => empty_response(STATUS_NO_CONTENT),
            },
            Route::Publish(name) => {
                self.dispatcher.publish(name, input.body);
                empty_response(STATUS_ACCEPTED)
            },
            Route::NotFound => empty_response(STATUS_NOT_FOUND),
        }
    }
}

/// A body posted to a queue that holds nothing comes back from the next `GET` of that
/// queue with status OK; the `GET` after that answers No Content with an empty body.
pub proof fn lemma_post_then_get(m: QueueMap, path: Seq<char>, body: Seq<u8>, unused: Seq<u8>)
    requires
        queue_name_in(path) is Some,
        held(m, queue_name_in(path)->0).len() == 0,
    ensures
        ({
            let post = seq!['P', 'O', 'S', 'T'];
            let get = seq!['G', 'E', 'T'];
            let (m1, s1, b1) = handle_spec(m, post, path, body);
            let (m2, s2, b2) = handle_spec(m1, get, path, unused);
            let (m3, s3, b3) = handle_spec(m2, get, path, unused);
            &&& s1 == STATUS_ACCEPTED && b1.len() == 0
            &&& s2 == STATUS_OK && b2 == body
            &&& s3 == STATUS_NO_CONTENT && b3.len() == 0
            &&& m3 == m2
        }),
{
    let name = queue_name_in(path)->0;
    let m1 = publish_spec(m, name, body);
    assert(held(m, name).push(body) =~= seq![body]);
    assert(m1[name] == seq![body]);
    let m2 = consume_spec(m1, name);
    assert(m2[name] =~= Seq::<Seq<u8>>::empty());
}

} // verus!
