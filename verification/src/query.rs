//! Messages of the remote content API and the paging state machine of the
//! query phase.

use vstd::prelude::*;

verus! {

/// Failure of one collection query.
#[derive(Clone, Debug, PartialEq, Eq)]
pub enum QueryError {
    /// A transport-level error (DNS, connect, TLS), carried as text.
    HttpError(String),
    /// The request returned a non-success status other than the rate limit.
    QueryFailed(u16),
}

/// One resource envelope of the remote API: a record together with its
/// object metadata.
#[derive(Clone, Debug)]
pub struct ApiObjectMessage<T> {
    pub object: String,
    pub url: String,
    pub data_updated_at: Option<String>,
    pub data: T,
}

/// One page of a paginated collection.
#[derive(Clone, Debug)]
pub struct ApiCollectionMessage<T> {
    pub object: String,
    pub url: String,
    pub data_updated_at: Option<String>,
    pub data: Vec<T>,
    pub total_count: i32,
    pub pages: ApiPaginationMessage,
}

/// Pagination metadata of a collection page. An absent `next_url` means the
/// enumeration is complete; it is taken verbatim from the server and never
/// re-derived.
#[derive(Clone, Debug)]
pub struct ApiPaginationMessage {
    pub per_page: i32,
    pub next_url: Option<String>,
    pub previous_url: Option<String>,
}

/// The fields shared by every subject record.
#[derive(Clone, Debug)]
pub struct ApiSubjectMessage {
    pub auxiliary_meanings: Vec<ApiAuxiliaryMeaningMessage>,
    /// The character(s) that make up the subject's item. Absent only for a
    /// subject kind this pipeline does not process.
    pub characters: Option<String>,
    pub created_at: String,
    pub document_url: String,
    pub hidden_at: Option<String>,
    pub lesson_position: i32,
    pub level: i32,
    pub meaning_mnemonic: String,
    pub meanings: Vec<ApiMeaningMessage>,
    pub slug: String,
    pub spaced_repetition_system_id: i32,
}

/// One meaning entry of a subject.
#[derive(Clone, Debug)]
pub struct ApiMeaningMessage {
    pub meaning: String,
    pub primary: bool,
    pub accepted_answer: bool,
}

/// One auxiliary meaning entry of a subject.
#[derive(Clone, Debug)]
pub struct ApiAuxiliaryMeaningMessage {
    pub meaning: String,
    pub kind: String,
}

/// How long to wait before re-issuing a rate-limited request, in seconds.
pub const RATE_LIMIT_COOLDOWN_SECS: u64 = 60;

/// The HTTP status with which the remote signals its rate limit.
pub const RATE_LIMIT_STATUS: u16 = 429;

/// What the driver observed for one collection request.
#[derive(Debug)]
pub enum PageEvent<T> {
    /// A success status whose body decoded as a collection page.
    Received(ApiCollectionMessage<T>),
    /// A non-success status; the body was not read.
    HttpStatus(u16),
    /// A transport-level error (DNS, connect, TLS), carried as text.
    Transport(String),
}

/// Where the enumeration of a collection stands.
#[derive(Clone, Debug, PartialEq, Eq)]
pub enum FetchPhase {
    /// The next page is owed by this URL.
    InFlight(String),
    /// The chain ended: a page arrived without a next URL.
    Done,
    /// The walk failed; it is never resumed.
    Failed(QueryError),
}

/// What the machine asks the driver to do next.
#[derive(Clone, Debug, PartialEq, Eq)]
pub enum FetchAction {
    /// Issue a GET for this URL and feed the outcome back.
    Request(String),
    /// Wait the given number of seconds, then issue the identical GET again.
    CoolDownThenRequest(String, u64),
    /// The walk is over; read `phase` for how it ended.
    Stop,
}

/// One transition of the paging walk: what one observed event does to the
/// accumulated records and the phase. The records only ever grow by a full
/// page in order; a rate-limit status changes nothing; any other non-success
/// status and any transport error end the walk.
pub open spec fn spec_fetch_step<T>(
    records: Seq<T>,
    phase: FetchPhase,
    event: PageEvent<T>,
) -> (Seq<T>, FetchPhase) {
    match phase {
        FetchPhase::InFlight(_) => match event {
            PageEvent::Received(page) => (
                records + page.data@,
                match page.pages.next_url {
                    Some(u) => FetchPhase::InFlight(u),
                    None => FetchPhase::Done,
                },
            ),
            PageEvent::HttpStatus(s) => if s == RATE_LIMIT_STATUS {
                (records, phase)
            } else {
                (records, FetchPhase::Failed(QueryError::QueryFailed(s)))
            },
            PageEvent::Transport(m) => (records, FetchPhase::Failed(QueryError::HttpError(m))),
        },
        _ => (records, phase),
    }
}

/// Walks a paginated collection to completion. The driver owns the I/O: it
/// issues the GET the current action names, classifies what came back as a
/// `PageEvent`, and feeds it to `on_response` until the action is `Stop`.
pub struct PagingFetcher<T> {
    /// Every record received so far, in page order.
    pub records: Vec<T>,
    /// Where the walk stands.
    pub phase: FetchPhase,
}

impl<T> PagingFetcher<T> {
    /// Begins a walk at the collection-listing URL: nothing received, the
    /// first page owed by `start_url`.
    pub fn start(start_url: String) -> (r: (PagingFetcher<T>, FetchAction))
        ensures
            r.0.records@ == Seq::<T>::empty(),
            r.0.phase == FetchPhase::InFlight(start_url),
            r.1 == FetchAction::Request(start_url),
    {
        let url = start_url.clone();
        (PagingFetcher { records: Vec::new(), phase: FetchPhase::InFlight(start_url) },
        FetchAction::Request(url))
    }

    /// Feeds one observed event, exactly as `spec_fetch_step` says. On a
    /// rate-limit status the state is left as it was and the identical URL is
    /// re-requested after the mandated cool-down; this is the only retried
    /// condition, and it is retried without a cap.
    pub fn on_response(&mut self, event: PageEvent<T>) -> (action: FetchAction)
        requires
            old(self).phase matches FetchPhase::InFlight(_),
        ensures
            (final(self).records@, final(self).phase) == spec_fetch_step(
                old(self).records@,
                old(self).phase,
                event,
            ),
            final(self).phase matches FetchPhase::InFlight(u) ==> (action
                == FetchAction::Request(u) || action == FetchAction::CoolDownThenRequest(
                u,
                RATE_LIMIT_COOLDOWN_SECS,
            )),
            event matches PageEvent::HttpStatus(s) ==> (s == RATE_LIMIT_STATUS ==> (old(
                self,
            ).phase matches FetchPhase::InFlight(u) && action == FetchAction::CoolDownThenRequest(
                u,
                RATE_LIMIT_COOLDOWN_SECS,
            ))),
            final(self).phase is Done || final(self).phase is Failed <==> action
                == FetchAction::Stop,
    {
        match event {
            PageEvent::Received(page) => {
                let mut data = page.data;
                self.records.append(&mut data);
                match page.pages.next_url {
                    Some(u) => {
                        let url = u.clone();
                        self.phase = FetchPhase::InFlight(u);
                        FetchAction::Request(url)
                    },
                    None => {
                        self.phase = FetchPhase::Done;
                        FetchAction::Stop
                    },
                }
            },
            PageEvent::HttpStatus(s) => {
                if s == RATE_LIMIT_STATUS {
                    let url = match &self.phase {
                        FetchPhase::InFlight(u) => u.clone(),
                        _ => vstd::pervasive::unreached(),
                    };
                    FetchAction::CoolDownThenRequest(url, RATE_LIMIT_COOLDOWN_SECS)
                } else {
                    self.phase = FetchPhase::Failed(QueryError::QueryFailed(s));
                    FetchAction::Stop
                }
            },
            PageEvent::Transport(m) => {
                self.phase = FetchPhase::Failed(QueryError::HttpError(m));
                FetchAction::Stop
            },
        }
    }
}

/// Strips the object envelopes off a page's worth of resources, keeping the
/// records in order.
pub fn unwrap_objects<T>(objects: Vec<ApiObjectMessage<T>>) -> (r: Vec<T>)
    ensures
        r@ == objects@.map_values(|o: ApiObjectMessage<T>| o.data),
{
    let ghost orig = objects@;
    let mut rest = objects;
    let mut out: Vec<T> = Vec::new();
    while rest.len() > 0
        invariant
            out@.len() <= orig.len(),
            rest@ =~= orig.subrange(out@.len() as int, orig.len() as int),
            out@ =~= orig.subrange(0, out@.len() as int).map_values(
                |o: ApiObjectMessage<T>| o.data,
            ),
        decreases rest.len(),
    {
        let ghost done = out@.len() as int;
        let o = rest.remove(0);
        proof {
            assert(o == orig[done]);
            assert(orig.subrange(0, done + 1) =~= orig.subrange(0, done).push(o));
        }
        out.push(o.data);
        proof {
            assert(out@ =~= orig.subrange(0, done + 1).map_values(
                |o: ApiObjectMessage<T>| o.data,
            ));
            assert(rest@ =~= orig.subrange(done + 1, orig.len() as int));
        }
    }
    proof {
        assert(orig.subrange(0, orig.len() as int) =~= orig);
    }
    out
}

/// The records and phase after feeding `events` in order, starting from
/// `records` and `phase`, together with how many events were consumed: the
/// walk consumes nothing more once its phase leaves `InFlight`, since each
/// consumed event answers exactly one issued GET.
pub open spec fn spec_fetch_run<T>(
    records: Seq<T>,
    phase: FetchPhase,
    events: Seq<PageEvent<T>>,
) -> (Seq<T>, FetchPhase, int)
    decreases events.len(),
{
    if events.len() == 0 || !(phase is InFlight) {
        (records, phase, 0)
    } else {
        let (r1, p1) = spec_fetch_step(records, phase, events[0]);
        let (r2, p2, n2) = spec_fetch_run(r1, p1, events.drop_first());
        (r2, p2, n2 + 1)
    }
}

/// The records of a chain of pages, concatenated in page order.
pub open spec fn chain_records<T>(pages: Seq<ApiCollectionMessage<T>>) -> Seq<T>
    decreases pages.len(),
{
    if pages.len() == 0 {
        Seq::empty()
    } else {
        chain_records(pages.drop_last()) + pages.last().data@
    }
}

/// A finite pagination chain: every page but the last points at a next page,
/// and the last does not.
pub open spec fn is_page_chain<T>(pages: Seq<ApiCollectionMessage<T>>) -> bool {
    &&& pages.len() >= 1
    &&& forall|i: int| 0 <= i < pages.len() - 1 ==> (#[trigger] pages[i]).pages.next_url is Some
    &&& pages.last().pages.next_url is None
}

/// Fetching a chain of N pages ends the walk with the concatenation of all
/// pages' records in page order, and consumes exactly N events — one per
/// issued GET.
pub proof fn lemma_fetch_all_pages<T>(
    records: Seq<T>,
    phase: FetchPhase,
    pages: Seq<ApiCollectionMessage<T>>,
)
    requires
        phase is InFlight,
        is_page_chain(pages),
    ensures
        spec_fetch_run(
            records,
            phase,
            pages.map_values(|p: ApiCollectionMessage<T>| PageEvent::Received(p)),
        ) == (records + chain_records(pages), FetchPhase::Done, pages.len() as int),
    decreases pages.len(),
{
    let events = pages.map_values(|p: ApiCollectionMessage<T>| PageEvent::Received(p));
    assert(events[0] == PageEvent::Received(pages[0]));
    let (r1, p1) = spec_fetch_step(records, phase, events[0]);
    assert(r1 == records + pages[0].data@);
    if pages.len() == 1 {
        assert(pages.last() == pages[0]);
        assert(chain_records(pages) == chain_records(pages.drop_last()) + pages.last().data@);
        assert(pages.drop_last().len() == 0);
        assert(chain_records(pages.drop_last()) == Seq::<T>::empty());
        assert(chain_records(pages) =~= pages[0].data@);
        assert(pages[0].pages.next_url is None);
        assert(p1 == FetchPhase::Done);
        assert(events.drop_first() =~= Seq::<PageEvent<T>>::empty());
        assert(spec_fetch_run(r1, p1, events.drop_first()) == (r1, p1, 0int));
        assert(records + chain_records(pages) =~= r1);
    } else {
        assert(pages[0].pages.next_url is Some);
        assert(p1 is InFlight);
        let rest = pages.drop_first();
        assert(rest.last() == pages.last());
        assert(is_page_chain(rest)) by {
            assert(forall|i: int|
                0 <= i < rest.len() - 1 ==> (#[trigger] rest[i]).pages.next_url is Some);
        }
        lemma_fetch_all_pages(r1, p1, rest);
        assert(events.drop_first() =~= rest.map_values(
            |p: ApiCollectionMessage<T>| PageEvent::Received(p),
        ));
        lemma_chain_records_drop_first(pages);
        assert(records + chain_records(pages) =~= r1 + chain_records(rest));
    }
}

/// Splitting a chain at its first page splits its concatenation.
proof fn lemma_chain_records_drop_first<T>(pages: Seq<ApiCollectionMessage<T>>)
    requires
        pages.len() >= 1,
    ensures
        chain_records(pages) == pages[0].data@ + chain_records(pages.drop_first()),
    decreases pages.len(),
{
    if pages.len() == 1 {
        assert(chain_records(pages) == chain_records(pages.drop_last()) + pages.last().data@);
        assert(pages.drop_last().len() == 0);
        assert(chain_records(pages.drop_last()) == Seq::<T>::empty());
        assert(pages.drop_first().len() == 0);
        assert(chain_records(pages.drop_first()) == Seq::<T>::empty());
        assert(pages.last() == pages[0]);
        assert(chain_records(pages) =~= pages[0].data@ + chain_records(pages.drop_first()));
    } else {
        assert(chain_records(pages) == chain_records(pages.drop_last()) + pages.last().data@);
        lemma_chain_records_drop_first(pages.drop_last());
        assert(pages.drop_last()[0] == pages[0]);
        let mid = pages.drop_last().drop_first();
        assert(mid =~= pages.drop_first().drop_last());
        assert(pages.drop_first().len() >= 1);
        assert(chain_records(pages.drop_first()) == chain_records(pages.drop_first().drop_last())
            + pages.drop_first().last().data@);
        assert(pages.drop_first().last() == pages.last());
        assert(chain_records(pages) =~= pages[0].data@ + chain_records(pages.drop_first()));
    }
}

/// A rate-limited response followed by the rest of the walk yields the same
/// records and the same final phase as if the rest had happened immediately;
/// only one more event — one more GET — is consumed, after the mandated
/// cool-down.
pub proof fn lemma_rate_limit_is_transparent<T>(
    records: Seq<T>,
    phase: FetchPhase,
    events: Seq<PageEvent<T>>,
)
    requires
        phase is InFlight,
    ensures
        ({
            let with_limit = spec_fetch_run(
                records,
                phase,
                seq![PageEvent::<T>::HttpStatus(RATE_LIMIT_STATUS)] + events,
            );
            let without = spec_fetch_run(records, phase, events);
            with_limit.0 == without.0 && with_limit.1 == without.1 && with_limit.2 == without.2
                + 1
        }),
{
    let padded = seq![PageEvent::HttpStatus(RATE_LIMIT_STATUS)] + events;
    assert(padded[0] == PageEvent::<T>::HttpStatus(RATE_LIMIT_STATUS));
    assert(spec_fetch_step(records, phase, padded[0]) == (records, phase));
    assert(padded.drop_first() =~= events);
}

} // verus!
