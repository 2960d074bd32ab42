use crate::error::TimerError;
use crate::timer::{Timer, TimerView};
use vstd::prelude::*;

verus! {

/// The size in bytes of the expiration counter that a readable timer descriptor yields.
pub const COUNTER_BYTES: usize = 8;

/// The error number of a read that would block on a non-blocking descriptor (Linux).
pub open spec fn would_block_code() -> i32 {
    11
}

/// Relies on libc::EAGAIN: the error number of a read on a non-blocking
/// descriptor that has nothing to read, 11 on Linux.
#[verifier::external_body]
fn would_block_errno() -> (r: i32)
    ensures
        r == would_block_code(),
{
    libc::EAGAIN
}

/// The drain read after a callback is in order when it got the whole counter,
/// or when it would have blocked because the callback had already drained it.
/// `read` is the byte count read, or the error number of a failed read.
pub open spec fn drain_accepted(read: Result<usize, i32>) -> bool {
    match read {
        Ok(n) => n == COUNTER_BYTES,
        Err(errno) => errno == would_block_code(),
    }
}

/// The result of a dispatch: the callback's decision to keep the source
/// registered, unless the drain read broke the protocol.
pub open spec fn drain_outcome(cont: bool, read: Result<usize, i32>) -> Result<bool, TimerError> {
    if drain_accepted(read) {
        Ok(cont)
    } else {
        Err(TimerError::DrainProtocolViolation)
    }
}

/// Finishes a dispatch once the callback has returned `cont` and the
/// expiration counter has been read: whether the source stays registered.
pub fn finish_dispatch(cont: bool, read: Result<usize, i32>) -> (r: Result<bool, TimerError>)
    ensures
        r == drain_outcome(cont, read),
{
    match read {
        Ok(n) => {
            if n == COUNTER_BYTES {
                Ok(cont)
            } else {
                Err(TimerError::DrainProtocolViolation)
            }
        },
        Err(errno) => {
            if errno == would_block_errno() {
                Ok(cont)
            } else {
                Err(TimerError::DrainProtocolViolation)
            }
        },
    }
}

/// What runs on each expiration of a source's timer. It returns `true` to keep
/// the source registered and `false` to have it removed.
pub trait TimerGSourceCallback: Send {
    fn callback(&mut self, timer: &mut Timer) -> bool;
}

/// A timer together with the callback that its expirations run.
pub struct TimerGSource<C: TimerGSourceCallback> {
    timer: Timer,
    callback_object: C,
}

impl<C: TimerGSourceCallback> TimerGSource<C> {
    pub closed spec fn timer_view(&self) -> TimerView {
        self.timer@
    }

    pub fn new(timer: Timer, callback_object: C) -> (r: TimerGSource<C>)
        ensures
            r.timer_view() == timer@,
    {
        TimerGSource { timer, callback_object }
    }

    pub fn timer(&self) -> (r: &Timer)
        ensures
            r@ == self.timer_view(),
    {
        &self.timer
    }

    pub fn mut_timer(&mut self) -> (r: &mut Timer)
        ensures
            r@ == old(self).timer_view(),
            final(self).timer_view() == final(r)@,
    {
        &mut self.timer
    }

    /// The descriptor that the reactor polls for this source.
    pub fn fd(&self) -> (r: i32)
        ensures
            r == self.timer_view().fd,
    {
        self.timer.timerfd().fd()
    }

    /// Runs the callback on the timer; its answer is whether to keep the source.
    pub fn run_callback(&mut self) -> (cont: bool) {
        self.callback_object.callback(&mut self.timer)
    }
}

/// Whether `token` names a registered source, given the registry's slots.
pub open spec fn is_live_in(slots: Seq<Option<TimerView>>, token: usize) -> bool {
    token < slots.len() && slots[token as int] is Some
}

/// The slots after a dispatch of `token` ends: the source is removed exactly
/// when the dispatch succeeded and its callback declined to continue.
pub open spec fn end_dispatch_view(
    slots: Seq<Option<TimerView>>,
    token: usize,
    cont: bool,
    read: Result<usize, i32>,
) -> Seq<Option<TimerView>> {
    if drain_outcome(cont, read) == Ok::<bool, TimerError>(false) {
        slots.update(token as int, None)
    } else {
        slots
    }
}

/// The sources that a reactor may dispatch, each reached through a token.
///
/// The reactor is handed a token rather than an address: a token is checked
/// to name a live source before anything is dispatched through it, and a
/// removed source's token never names another one.
pub struct SourceRegistry<C: TimerGSourceCallback> {
    slots: Vec<Option<TimerGSource<C>>>,
}

impl<C: TimerGSourceCallback> View for SourceRegistry<C> {
    type V = Seq<Option<TimerView>>;

    /// For each token ever handed out, the state of the timer of the source
    /// that it names, or `None` once that source has been removed.
    closed spec fn view(&self) -> Seq<Option<TimerView>> {
        self.slots@.map_values(
            |s: Option<TimerGSource<C>>|
                match s {
                    Some(source) => Some(source.timer_view()),
                    None => None,
                },
        )
    }
}

impl<C: TimerGSourceCallback> SourceRegistry<C> {
    pub fn new() -> (r: SourceRegistry<C>)
        ensures
            r@ == Seq::<Option<TimerView>>::empty(),
    {
        let r = SourceRegistry { slots: Vec::new() };
        assert(r@ =~= Seq::<Option<TimerView>>::empty());
        r
    }

    /// Registers `source` under a fresh token.
    pub fn register(&mut self, source: TimerGSource<C>) -> (token: usize)
        requires
            old(self)@.len() < usize::MAX,
        ensures
            token == old(self)@.len(),
            final(self)@ == old(self)@.push(Some(source.timer_view())),
    {
        let token = self.slots.len();
        let ghost v = source.timer_view();
        self.slots.push(Some(source));
        assert(self@ =~= old(self)@.push(Some(v)));
        token
    }

    pub fn is_live(&self, token: usize) -> (r: bool)
        ensures
            r == is_live_in(self@, token),
    {
        token < self.slots.len() && self.slots[token].is_some()
    }

    /// The source that `token` names, if it is live.
    pub fn get(&self, token: usize) -> (r: Option<&TimerGSource<C>>)
        ensures
            match r {
                Some(source) => is_live_in(self@, token) && self@[token as int] == Some(
                    source.timer_view(),
                ),
                None => !is_live_in(self@, token),
            },
    {
        if token < self.slots.len() {
            self.slots[token].as_ref()
        } else {
            None
        }
    }

    /// Removes the source that `token` names and hands it back, if it is live.
    pub fn unregister(&mut self, token: usize) -> (r: Option<TimerGSource<C>>)
        ensures
            match r {
                Some(source) => is_live_in(old(self)@, token) && old(self)@[token as int] == Some(
                    source.timer_view(),
                ) && final(self)@ == old(self)@.update(token as int, None),
                None => !is_live_in(old(self)@, token) && final(self)@ == old(self)@,
            },
    {
        if token >= self.slots.len() {
            return None;
        }
        let mut taken: Option<TimerGSource<C>> = None;
        std::mem::swap(&mut self.slots[token], &mut taken);
        proof {
            if taken is Some {
                assert(self@ =~= old(self)@.update(token as int, None));
            } else {
                assert(self@ =~= old(self)@);
            }
        }
        taken
    }

    /// The first half of a dispatch: runs the callback of the source that
    /// `token` names, if it is live, and returns its answer together with the
    /// descriptor to drain. A token that names no source runs nothing. The
    /// callback may change its own timer, and nothing else.
    pub fn begin_dispatch(&mut self, token: usize) -> (r: Option<(bool, i32)>)
        ensures
            r is Some <==> is_live_in(old(self)@, token),
            r is None ==> final(self)@ == old(self)@,
            final(self)@.len() == old(self)@.len(),
            is_live_in(final(self)@, token) == is_live_in(old(self)@, token),
            forall|i: int|
                0 <= i < old(self)@.len() && i != token ==> final(self)@[i] == old(self)@[i],
            match r {
                Some((_, fd)) => final(self)@[token as int]->Some_0.fd == fd,
                None => true,
            },
    {
        if token >= self.slots.len() {
            return None;
        }
        let mut taken: Option<TimerGSource<C>> = None;
        std::mem::swap(&mut self.slots[token], &mut taken);
        match taken {
            Some(mut source) => {
                let cont = source.run_callback();
                let fd = source.fd();
                let ghost v = source.timer_view();
                let mut back = Some(source);
                std::mem::swap(&mut self.slots[token], &mut back);
                assert(self@ =~= old(self)@.update(token as int, Some(v)));
                Some((cont, fd))
            },
            None => {
                assert(self@ =~= old(self)@);
                None
            },
        }
    }

    /// The second half of a dispatch, once the counter has been read: the
    /// outcome of the drain protocol. Where the callback declined to continue,
    /// the source is removed and handed back (`Ok(Some(..))`); where it stays,
    /// the result is `Ok(None)`.
    pub fn end_dispatch(&mut self, token: usize, cont: bool, read: Result<usize, i32>) -> (r:
        Result<Option<TimerGSource<C>>, TimerError>)
        requires
            is_live_in(old(self)@, token),
        ensures
            final(self)@ == end_dispatch_view(old(self)@, token, cont, read),
            match r {
                Ok(removed) => drain_outcome(cont, read) == Ok::<bool, TimerError>(removed is None),
                Err(e) => drain_outcome(cont, read) == Err::<bool, TimerError>(e),
            },
            match r {
                Ok(Some(source)) => old(self)@[token as int] == Some(source.timer_view()),
                _ => true,
            },
    {
        match finish_dispatch(cont, read) {
            Ok(true) => Ok(None),
            Ok(false) => Ok(self.unregister(token)),
            Err(e) => Err(e),
        }
    }
}

/// A source whose callback declines to continue is dispatched once: when that
/// dispatch ends with an accepted drain, its token no longer names a source, so
/// a later `begin_dispatch` on it runs no callback; the other tokens keep their sources.
pub proof fn lemma_declined_source_dispatched_once(
    slots: Seq<Option<TimerView>>,
    token: usize,
    read: Result<usize, i32>,
)
    requires
        is_live_in(slots, token),
        drain_accepted(read),
    ensures
        !is_live_in(end_dispatch_view(slots, token, false, read), token),
        end_dispatch_view(slots, token, false, read).len() == slots.len(),
        forall|i: int|
            0 <= i < slots.len() && i != token ==> end_dispatch_view(slots, token, false, read)[i]
                == slots[i],
{
}

} // verus!
