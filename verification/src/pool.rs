//! The backend endpoints and the choice among them.
//!
//! The pool holds a fixed list of endpoints. Each has a flag that says
//! whether the last attempt to connect to it succeeded, and the pool has a
//! cursor that moves on by one endpoint with every call. A call tries the
//! endpoints in the order of the list, starting at the cursor and going
//! round: first those flagged usable, then the others, each at most once. It
//! moves on to the next endpoint only after a failure to connect; any answer
//! of an endpoint, good or bad, ends the call.
//!
//! The connecting and calling is done by the caller. `BackendPool::begin_call`
//! and `BackendPool::on_outcome` decide which endpoint to try.

use vstd::prelude::*;
use crate::envelope::HttpResponse;
use crate::gateway::BackendFailure;

verus! {

/// One backend endpoint: its address, and whether it is thought reachable.
#[derive(Clone, Debug, PartialEq, Eq)]
struct Endpoint {
    address: String,
    usable: bool,
}

/// The endpoints of the backend and the cursor of the rotation.
#[derive(Debug)]
pub struct BackendPool {
    endpoints: Vec<Endpoint>,
    cursor: usize,
}

/// What a `BackendPool` holds: the addresses, a flag for each, the cursor.
#[verifier::ext_equal]
pub struct PoolModel {
    pub addresses: Seq<Seq<char>>,
    pub usable: Seq<bool>,
    pub cursor: int,
}

impl PoolModel {
    /// Every address has its flag, the list fits the machine, and the cursor
    /// points at an endpoint, or is zero where there is none.
    pub open spec fn wf(self) -> bool {
        &&& self.addresses.len() == self.usable.len()
        &&& self.usable.len() <= usize::MAX
        &&& 0 <= self.cursor
        &&& self.cursor < self.usable.len() || (self.cursor == 0 && self.usable.len() == 0)
    }

    /// The number of endpoints.
    pub open spec fn size(self) -> int {
        self.usable.len() as int
    }

    /// The pool with the flag of one endpoint set; unchanged where there is
    /// no such endpoint.
    pub open spec fn marked(self, index: int, usable: bool) -> PoolModel {
        if 0 <= index < self.usable.len() {
            PoolModel { usable: self.usable.update(index, usable), ..self }
        } else {
            self
        }
    }

    /// The pool with the cursor moved on by one endpoint.
    pub open spec fn advanced(self) -> PoolModel {
        if self.size() == 0 {
            self
        } else {
            PoolModel { cursor: rotated(self.cursor, 1, self.size()), ..self }
        }
    }
}

/// The endpoint that stands `k` places after `start` in a list of `n`,
/// going round at the end.
pub open spec fn rotated(start: int, k: int, n: int) -> int {
    if start + k < n {
        start + k
    } else {
        start + k - n
    }
}

/// The endpoints of a list of `n` in the order from `start`, going round.
pub open spec fn rotation(start: int, n: int) -> Seq<usize> {
    Seq::new(n as nat, |k: int| rotated(start, k, n) as usize)
}

/// The test whether an endpoint's flag has a given value.
pub open spec fn has_flag(usable: Seq<bool>, want: bool) -> spec_fn(usize) -> bool {
    |i: usize| usable[i as int] == want
}

/// The order in which a call tries the endpoints: from the cursor round the
/// list, the usable ones first and then the others.
#[verifier::opaque]
pub open spec fn call_order(pool: PoolModel) -> Seq<usize> {
    let round = rotation(pool.cursor, pool.size());
    round.filter(has_flag(pool.usable, true)) + round.filter(has_flag(pool.usable, false))
}

/// The state of one call: the order of its attempts, and which one is under
/// way.
#[derive(Debug)]
pub struct BackendCall {
    order: Vec<usize>,
    position: usize,
}

/// What a `BackendCall` holds.
#[verifier::ext_equal]
pub struct CallModel {
    pub order: Seq<usize>,
    pub position: int,
}

impl CallModel {
    /// An attempt is under way: the position points into the order.
    pub open spec fn wf(self) -> bool {
        0 <= self.position < self.order.len()
    }

    /// The endpoint that the attempt under way goes to.
    pub open spec fn current(self) -> usize {
        self.order[self.position]
    }

    /// Whether another endpoint is left to try after the one under way.
    pub open spec fn has_next(self) -> bool {
        self.position + 1 < self.order.len()
    }

    /// The call with its next attempt under way.
    pub open spec fn moved_on(self) -> CallModel {
        CallModel { position: self.position + 1, ..self }
    }
}

/// How an attempt on one endpoint ended.
#[derive(Clone, Debug, PartialEq, Eq)]
pub enum AttemptOutcome {
    /// No connection to the endpoint could be made.
    ConnectFailed,
    /// The endpoint did not answer within the deadline.
    TimedOut,
    /// The endpoint was reached and the call failed there.
    Failed,
    /// The endpoint returned a response envelope.
    Replied(HttpResponse),
}

/// What to do next for a call.
#[derive(Debug)]
pub enum CallStep {
    /// Try this endpoint, and report how it went together with `call`.
    Try { call: BackendCall, endpoint: usize },
    /// The call is over, with this result.
    Finish(Result<HttpResponse, BackendFailure>),
}

impl View for BackendPool {
    type V = PoolModel;

    closed spec fn view(&self) -> PoolModel {
        PoolModel {
            addresses: Seq::new(self.endpoints.len() as nat, |i: int| self.endpoints[i].address@),
            usable: Seq::new(self.endpoints.len() as nat, |i: int| self.endpoints[i].usable),
            cursor: self.cursor as int,
        }
    }
}

impl View for BackendCall {
    type V = CallModel;

    closed spec fn view(&self) -> CallModel {
        CallModel { order: self.order@, position: self.position as int }
    }
}

impl BackendPool {
    /// Makes a pool of the given addresses, all flagged usable, with the
    /// cursor on the first.
    pub fn new(addresses: Vec<String>) -> (pool: BackendPool)
        ensures
            pool@.addresses == addresses.deep_view(),
            pool@.usable == Seq::new(addresses.len() as nat, |i: int| true),
            pool@.cursor == 0,
            pool@.wf(),
    {
        let mut endpoints: Vec<Endpoint> = Vec::new();
        let mut i: usize = 0;
        while i < addresses.len()
            invariant
                i <= addresses.len(),
                endpoints.len() == i,
                forall|k: int|
                    0 <= k < i ==> (#[trigger] endpoints[k]).address@ == addresses[k]@
                        && endpoints[k].usable,
            decreases addresses.len() - i,
        {
            endpoints.push(Endpoint { address: addresses[i].clone(), usable: true });
            i += 1;
        }
        let pool = BackendPool { endpoints, cursor: 0 };
        proof {
            assert(pool@.addresses =~= addresses.deep_view());
            assert(pool@.usable =~= Seq::new(addresses.len() as nat, |i: int| true));
        }
        pool
    }

    /// The number of endpoints.
    pub fn len(&self) -> (n: usize)
        ensures
            n == self@.size(),
    {
        self.endpoints.len()
    }

    /// The address of an endpoint, if there is one at this index.
    pub fn address(&self, index: usize) -> (address: Option<&str>)
        ensures
            address is Some <==> index < self@.size(),
            address matches Some(a) ==> a@ == self@.addresses[index as int],
    {
        if index < self.endpoints.len() {
            Some(self.endpoints[index].address.as_str())
        } else {
            None
        }
    }

    /// Whether there is an endpoint at this index that is flagged usable.
    pub fn is_usable(&self, index: usize) -> (usable: bool)
        ensures
            usable == (index < self@.size() && self@.usable[index as int]),
    {
        index < self.endpoints.len() && self.endpoints[index].usable
    }

    /// The endpoints whose flag is `want`, in the order from the cursor
    /// round the list.
    fn round_with_flag(&self, want: bool) -> (part: Vec<usize>)
        requires
            self@.wf(),
        ensures
            part@ == rotation(self@.cursor, self@.size()).filter(has_flag(self@.usable, want)),
    {
        let n = self.endpoints.len();
        let ghost round = rotation(self@.cursor, self@.size());
        let ghost pred = has_flag(self@.usable, want);
        let mut part: Vec<usize> = Vec::new();
        let mut index = self.cursor;
        let mut k: usize = 0;
        proof {
            reveal(Seq::filter);
            assert(round.take(0) =~= Seq::<usize>::empty());
        }
        while k < n
            invariant
                self@.wf(),
                n == self.endpoints.len(),
                n == self@.size(),
                k <= n,
                round == rotation(self@.cursor, self@.size()),
                pred == has_flag(self@.usable, want),
                k < n ==> index == rotated(self@.cursor, k as int, n as int),
                k < n ==> index < n,
                part@ == round.take(k as int).filter(pred),
            decreases n - k,
        {
            proof {
                assert(round.take(k + 1) =~= round.take(k as int).push(index));
                round.take(k as int).lemma_filter_push(index, pred);
            }
            if self.endpoints[index].usable == want {
                part.push(index);
            }
            k += 1;
            index += 1;
            if index == n {
                index = 0;
            }
        }
        proof {
            assert(round.take(n as int) =~= round);
        }
        part
    }

    /// Begins a call: fixes the order of its attempts, moves the cursor on
    /// by one endpoint, and says which endpoint to try first. With no
    /// endpoint configured the call is over at once, as unavailable.
    pub fn begin_call(&mut self) -> (step: CallStep)
        requires
            old(self)@.wf(),
        ensures
            final(self)@ == old(self)@.advanced(),
            final(self)@.wf(),
            old(self)@.size() == 0 ==> step == CallStep::Finish(
                Err::<HttpResponse, BackendFailure>(BackendFailure::Unavailable),
            ),
            old(self)@.size() > 0 ==> {
                &&& step matches CallStep::Try { call, endpoint }
                &&& call@.order == call_order(old(self)@)
                &&& call@.position == 0
                &&& call@.wf()
                &&& endpoint == call@.current()
                &&& call@.order.len() == old(self)@.size()
                &&& endpoint < old(self)@.size()
            },
    {
        let n = self.endpoints.len();
        if n == 0 {
            proof {
                assert(self@ =~= old(self)@.advanced());
            }
            return CallStep::Finish(Err(BackendFailure::Unavailable));
        }
        let mut order = self.round_with_flag(true);
        let mut rest = self.round_with_flag(false);
        proof {
            reveal(call_order);
            lemma_call_order_covers(self@);
        }
        order.append(&mut rest);
        let next = if self.cursor + 1 < n {
            self.cursor + 1
        } else {
            0
        };
        self.cursor = next;
        proof {
            assert(self@ =~= old(self)@.advanced());
        }
        let endpoint = order[0];
        CallStep::Try { call: BackendCall { order, position: 0 }, endpoint }
    }

    /// Sets the flag of an endpoint, if there is one at this index.
    fn mark(&mut self, index: usize, usable: bool)
        ensures
            final(self)@ == old(self)@.marked(index as int, usable),
    {
        if index < self.endpoints.len() {
            let address = self.endpoints[index].address.clone();
            self.endpoints.set(index, Endpoint { address, usable });
            proof {
                assert(self@ =~= old(self)@.marked(index as int, usable));
            }
        }
    }

    /// Takes the outcome of the attempt under way and says what to do next.
    ///
    /// After a failure to connect the endpoint is flagged unusable, and the
    /// next endpoint in the call's order is tried; when none is left, the
    /// call is over as unavailable. Any other outcome ends the call with
    /// that outcome, and nothing is tried again: a reply and a failed call
    /// flag the endpoint usable, a timeout leaves its flag as it is.
    pub fn on_outcome(&mut self, call: BackendCall, outcome: AttemptOutcome) -> (step: CallStep)
        requires
            call@.wf(),
        ensures
            old(self)@.wf() ==> final(self)@.wf(),
            match outcome {
                AttemptOutcome::ConnectFailed => {
                    &&& final(self)@ == old(self)@.marked(call@.current() as int, false)
                    &&& call@.has_next() ==> {
                        &&& step matches CallStep::Try { call: next, endpoint }
                        &&& next@ == call@.moved_on()
                        &&& next@.wf()
                        &&& endpoint == next@.current()
                    }
                    &&& !call@.has_next() ==> step == CallStep::Finish(
                        Err::<HttpResponse, BackendFailure>(BackendFailure::Unavailable),
                    )
                },
                AttemptOutcome::TimedOut => {
                    &&& final(self)@ == old(self)@
                    &&& step == CallStep::Finish(
                        Err::<HttpResponse, BackendFailure>(BackendFailure::TimedOut),
                    )
                },
                AttemptOutcome::Failed => {
                    &&& final(self)@ == old(self)@.marked(call@.current() as int, true)
                    &&& step == CallStep::Finish(
                        Err::<HttpResponse, BackendFailure>(BackendFailure::Failed),
                    )
                },
                AttemptOutcome::Replied(reply) => {
                    &&& final(self)@ == old(self)@.marked(call@.current() as int, true)
                    &&& step == CallStep::Finish(Ok::<HttpResponse, BackendFailure>(reply))
                },
            },
    {
        assert(call.position < call.order.len());
        let current = call.order[call.position];
        match outcome {
            AttemptOutcome::ConnectFailed => {
                self.mark(current, false);
                if call.position + 1 < call.order.len() {
                    let position = call.position + 1;
                    let endpoint = call.order[position];
                    CallStep::Try { call: BackendCall { order: call.order, position }, endpoint }
                } else {
                    CallStep::Finish(Err(BackendFailure::Unavailable))
                }
            },
            AttemptOutcome::TimedOut => CallStep::Finish(Err(BackendFailure::TimedOut)),
            AttemptOutcome::Failed => {
                self.mark(current, true);
                CallStep::Finish(Err(BackendFailure::Failed))
            },
            AttemptOutcome::Replied(reply) => {
                self.mark(current, true);
                CallStep::Finish(Ok(reply))
            },
        }
    }
}

/// The two halves of a rotation, by flag, hold as many endpoints as the
/// rotation.
proof fn lemma_halves_len(round: Seq<usize>, usable: Seq<bool>)
    ensures
        round.filter(has_flag(usable, true)).len() + round.filter(has_flag(usable, false)).len()
            == round.len(),
    decreases round.len(),
{
    reveal(Seq::filter);
    if round.len() > 0 {
        lemma_halves_len(round.drop_last(), usable);
    }
}

/// A call's order names as many endpoints as the pool has, each of them an
/// endpoint of the pool.
pub proof fn lemma_call_order_covers(pool: PoolModel)
    requires
        pool.wf(),
    ensures
        call_order(pool).len() == pool.size(),
        forall|k: int| 0 <= k < pool.size() ==> 0 <= #[trigger] call_order(pool)[k] < pool.size(),
{
    reveal(call_order);
    let round = rotation(pool.cursor, pool.size());
    let yes = round.filter(has_flag(pool.usable, true));
    let no = round.filter(has_flag(pool.usable, false));
    lemma_halves_len(round, pool.usable);
    assert forall|k: int| 0 <= k < pool.size() implies 0 <= #[trigger] call_order(pool)[k]
        < pool.size() by {
        let e = call_order(pool)[k];
        if k < yes.len() {
            assert(yes.contains(yes[k]));
            round.lemma_filter_contains_rev(has_flag(pool.usable, true), e);
        } else {
            assert(no.contains(no[k - yes.len()]));
            round.lemma_filter_contains_rev(has_flag(pool.usable, false), e);
        }
        let j = choose|j: int| 0 <= j < round.len() && round[j] == e;
        assert(round[j] == rotated(pool.cursor, j, pool.size()) as usize);
    }
}

/// What is kept of a list without repeats has no repeats.
proof fn lemma_filter_keeps_distinct(s: Seq<usize>, pred: spec_fn(usize) -> bool)
    requires
        s.no_duplicates(),
    ensures
        s.filter(pred).no_duplicates(),
    decreases s.len(),
{
    reveal(Seq::filter);
    if s.len() > 0 {
        let front = s.drop_last();
        lemma_filter_keeps_distinct(front, pred);
        if pred(s.last()) {
            let kept = front.filter(pred);
            assert forall|i: int| 0 <= i < kept.len() implies kept[i] != s.last() by {
                assert(kept.contains(kept[i]));
                front.lemma_filter_contains_rev(pred, kept[i]);
                let j = choose|j: int| 0 <= j < front.len() && front[j] == kept[i];
                assert(s[j] == kept[i]);
            }
        }
    }
}

/// A rotation names every endpoint once.
proof fn lemma_rotation_is_permutation(start: int, n: int)
    requires
        0 <= start < n <= usize::MAX,
    ensures
        rotation(start, n).no_duplicates(),
        forall|e: usize| 0 <= e < n ==> rotation(start, n).contains(e),
{
    let round = rotation(start, n);
    assert forall|e: usize| 0 <= e < n implies round.contains(e) by {
        let k = if e >= start {
            e - start
        } else {
            e - start + n
        };
        assert(round[k] == e);
    }
}

/// In one call no endpoint is tried twice, and every endpoint has its place
/// in the order: a call makes at most as many attempts as the pool has
/// endpoints.
pub proof fn lemma_call_order_is_permutation(pool: PoolModel)
    requires
        pool.wf(),
    ensures
        call_order(pool).len() == pool.size(),
        call_order(pool).no_duplicates(),
        forall|e: usize| 0 <= e < pool.size() ==> call_order(pool).contains(e),
{
    reveal(call_order);
    let n = pool.size();
    let round = rotation(pool.cursor, n);
    let yes = round.filter(has_flag(pool.usable, true));
    let no = round.filter(has_flag(pool.usable, false));
    lemma_call_order_covers(pool);
    if n > 0 {
        lemma_rotation_is_permutation(pool.cursor, n);
        lemma_filter_keeps_distinct(round, has_flag(pool.usable, true));
        lemma_filter_keeps_distinct(round, has_flag(pool.usable, false));
        assert forall|i: int, j: int| 0 <= i < yes.len() && 0 <= j < no.len() implies yes[i]
            != no[j] by {
            round.lemma_filter_pred(has_flag(pool.usable, true), i);
            round.lemma_filter_pred(has_flag(pool.usable, false), j);
        }
        vstd::seq_lib::lemma_no_dup_in_concat(yes, no);
        assert forall|e: usize| 0 <= e < n implies call_order(pool).contains(e) by {
            assert(round.contains(e));
            let k = choose|k: int| 0 <= k < round.len() && round[k] == e;
            if pool.usable[e as int] {
                round.lemma_filter_contains(has_flag(pool.usable, true), k);
                let i = choose|i: int| 0 <= i < yes.len() && yes[i] == e;
                assert(call_order(pool)[i] == e);
            } else {
                round.lemma_filter_contains(has_flag(pool.usable, false), k);
                let i = choose|i: int| 0 <= i < no.len() && no[i] == e;
                assert(call_order(pool)[yes.len() + i] == e);
            }
        }
    }
}

/// A call tries every usable endpoint before any that is flagged unusable.
pub proof fn lemma_usable_first(pool: PoolModel, a: int, b: int)
    requires
        pool.wf(),
        0 <= a < b < pool.size(),
        pool.usable[call_order(pool)[b] as int],
    ensures
        pool.usable[call_order(pool)[a] as int],
{
    reveal(call_order);
    let round = rotation(pool.cursor, pool.size());
    let yes = round.filter(has_flag(pool.usable, true));
    let no = round.filter(has_flag(pool.usable, false));
    lemma_call_order_covers(pool);
    if b >= yes.len() {
        round.lemma_filter_pred(has_flag(pool.usable, false), b - yes.len());
    }
    round.lemma_filter_pred(has_flag(pool.usable, true), a);
}

/// Round robin: while every endpoint is usable, a call goes round the list
/// from the cursor, so it starts at the cursor's endpoint, and the call after
/// it starts at the endpoint after that.
pub proof fn lemma_round_robin(pool: PoolModel)
    requires
        pool.wf(),
        pool.size() > 0,
        forall|i: int| 0 <= i < pool.size() ==> pool.usable[i],
    ensures
        call_order(pool) == rotation(pool.cursor, pool.size()),
        call_order(pool)[0] == pool.cursor,
        call_order(pool.advanced())[0] == rotated(pool.cursor, 1, pool.size()),
        pool.advanced().wf(),
{
    let next = pool.advanced();
    assert(next.usable == pool.usable);
    assert(next.cursor == rotated(pool.cursor, 1, pool.size()));
    assert(next.wf());
    lemma_all_usable_order(pool);
    lemma_all_usable_order(next);
}

/// While every endpoint is usable, a call's order is the rotation itself.
proof fn lemma_all_usable_order(pool: PoolModel)
    requires
        pool.wf(),
        pool.size() > 0,
        forall|i: int| 0 <= i < pool.size() ==> pool.usable[i],
    ensures
        call_order(pool) == rotation(pool.cursor, pool.size()),
        call_order(pool)[0] == pool.cursor,
{
    reveal(call_order);
    let round = rotation(pool.cursor, pool.size());
    assert forall|k: int| 0 <= k < round.len() implies 0 <= #[trigger] round[k]
        < pool.usable.len() by {
        assert(round[k] == rotated(pool.cursor, k, pool.size()) as usize);
    }
    lemma_keep_all(round, round.len() as int, pool.usable);
    assert(round.take(round.len() as int) =~= round);
    assert(call_order(pool) =~= round);
}

/// Of a run of endpoints that are all usable, the usable half is the run
/// and the other half is empty.
proof fn lemma_keep_all(round: Seq<usize>, upto: int, usable: Seq<bool>)
    requires
        0 <= upto <= round.len(),
        forall|k: int| 0 <= k < round.len() ==> 0 <= #[trigger] round[k] < usable.len(),
        forall|i: int| 0 <= i < usable.len() ==> usable[i],
    ensures
        round.take(upto).filter(has_flag(usable, true)) == round.take(upto),
        round.take(upto).filter(has_flag(usable, false)) == Seq::<usize>::empty(),
    decreases upto,
{
    reveal(Seq::filter);
    if upto > 0 {
        lemma_keep_all(round, upto - 1, usable);
        assert(round.take(upto).drop_last() =~= round.take(upto - 1));
        assert(round.take(upto).last() == round[upto - 1]);
        assert(round.take(upto) =~= round.take(upto - 1).push(round[upto - 1]));
    } else {
        assert(round.take(0) =~= Seq::<usize>::empty());
    }
}

/// The call that is left after a number of attempts in a row have failed to
/// connect, or `None` where the call is over as unavailable by then.
pub open spec fn after_connect_failures(call: CallModel, failures: nat) -> Option<CallModel>
    decreases failures,
{
    if failures == 0 {
        Some(call)
    } else if call.has_next() {
        after_connect_failures(call.moved_on(), (failures - 1) as nat)
    } else {
        None
    }
}

/// A call on endpoints that cannot be reached does not go on for ever. With
/// some number of endpoints still to try, the one under way included, it is
/// over as unavailable after exactly that many failures to connect, and
/// until then each failure moves it on by one endpoint. The client then gets
/// 502.
pub proof fn lemma_unreachable_ends(call: CallModel, failures: nat)
    requires
        call.wf(),
    ensures
        failures < call.order.len() - call.position ==> after_connect_failures(call, failures)
            == Some(CallModel { position: call.position + failures, ..call }),
        failures >= call.order.len() - call.position ==> after_connect_failures(call, failures)
            is None,
        crate::gateway::error_status(
            crate::gateway::GatewayError::Backend(BackendFailure::Unavailable),
        ) == 502,
    decreases failures,
{
    if failures > 0 && call.has_next() {
        lemma_unreachable_ends(call.moved_on(), (failures - 1) as nat);
    }
}

} // verus!
