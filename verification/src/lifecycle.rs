//! The life of a stream, as a state machine over the table's `stream_open`
//! flag.
//!
//! Two calls move the flag: opening a stream, whose outcome depends on what
//! the native initializer reports, and releasing the stream that an opening
//! gave out. The functions here say what each call does to the flag; the
//! contracts of the binding table and of the stream handle are written with
//! them, and the laws at the end of the file are proved from them.
use vstd::prelude::*;

verus! {

/// Whether a result of the native initializer reports a started stream.
/// Zero is the one value that reports failure.
pub open spec fn init_succeeded(init_result: i32) -> bool {
    init_result != 0
}

/// Tells whether the native initializer started the stream, from its result.
pub fn initialize_succeeded(init_result: i32) -> (started: bool)
    ensures
        started == init_succeeded(init_result),
{
    init_result != 0
}

/// A call that takes part in the life of a stream.
pub ghost enum StreamCall {
    /// An opening, together with what the native initializer returned.
    Open { init_result: i32 },
    /// The release of an open stream through its handle.
    Release,
}

/// Whether `call` gives out a stream handle: an opening does if the native
/// initializer reported success, a release never does.
pub open spec fn gives_handle(call: StreamCall) -> bool {
    call matches StreamCall::Open { init_result } && init_succeeded(init_result)
}

/// What the flag is after `call`, made while it was `stream_open`.
pub open spec fn flag_after(stream_open: bool, call: StreamCall) -> bool {
    match call {
        StreamCall::Open { .. } => stream_open || gives_handle(call),
        StreamCall::Release => false,
    }
}

/// A binding table seen from outside: its flag, and the number of streams
/// that were opened on it and not released yet. Each of them is in the hands
/// of one stream handle.
pub ghost struct Streams {
    pub stream_open: bool,
    pub live: nat,
}

impl Streams {
    /// A table as it is after loading: the flag clear, no stream.
    pub open spec fn initial() -> Streams {
        Streams { stream_open: false, live: 0 }
    }

    /// Whether `call` may be made in this state. A stream is opened only
    /// while the flag is clear, and only a stream that exists is released.
    pub open spec fn admits(self, call: StreamCall) -> bool {
        match call {
            StreamCall::Open { .. } => !self.stream_open,
            StreamCall::Release => self.live > 0,
        }
    }

    /// The state after `call`.
    pub open spec fn step(self, call: StreamCall) -> Streams {
        Streams {
            stream_open: flag_after(self.stream_open, call),
            live: match call {
                StreamCall::Open { .. } => if gives_handle(call) {
                    self.live + 1
                } else {
                    self.live
                },
                StreamCall::Release => (self.live - 1) as nat,
            },
        }
    }

    /// The state after all of `calls`, first to last.
    pub open spec fn run(self, calls: Seq<StreamCall>) -> Streams
        decreases calls.len(),
    {
        if calls.len() == 0 {
            self
        } else {
            self.run(calls.drop_last()).step(calls.last())
        }
    }

    /// Whether each of `calls` may be made in the state that it meets.
    pub open spec fn admits_all(self, calls: Seq<StreamCall>) -> bool
        decreases calls.len(),
    {
        calls.len() > 0 ==> {
            &&& self.admits_all(calls.drop_last())
            &&& self.run(calls.drop_last()).admits(calls.last())
        }
    }

    /// The flag is set exactly while one stream is live, and there is never
    /// more than one.
    pub open spec fn flag_counts_streams(self) -> bool {
        self.live == if self.stream_open { 1nat } else { 0nat }
    }
}

/// One admitted call keeps the flag in step with the number of streams.
pub proof fn lemma_step_keeps_count(state: Streams, call: StreamCall)
    requires
        state.flag_counts_streams(),
        state.admits(call),
    ensures
        state.step(call).flag_counts_streams(),
{
}

/// Whatever calls are made on a freshly loaded table, and whatever the native
/// initializer answers, at most one stream is live afterwards, and the flag
/// is set exactly if one is.
pub proof fn lemma_at_most_one_stream(calls: Seq<StreamCall>)
    requires
        Streams::initial().admits_all(calls),
    ensures
        Streams::initial().run(calls).live <= 1,
        Streams::initial().run(calls).flag_counts_streams(),
    decreases calls.len(),
{
    if calls.len() > 0 {
        lemma_at_most_one_stream(calls.drop_last());
        lemma_step_keeps_count(Streams::initial().run(calls.drop_last()), calls.last());
    }
}

/// The same holds at every point on the way: after each prefix of the calls.
pub proof fn lemma_at_most_one_stream_at_any_time(calls: Seq<StreamCall>, made: int)
    requires
        Streams::initial().admits_all(calls),
        0 <= made <= calls.len(),
    ensures
        Streams::initial().admits_all(calls.take(made)),
        Streams::initial().run(calls.take(made)).live <= 1,
        Streams::initial().run(calls.take(made)).flag_counts_streams(),
    decreases calls.len(),
{
    if made == calls.len() {
        assert(calls.take(made) =~= calls);
        lemma_at_most_one_stream(calls);
    } else {
        assert(calls.drop_last().take(made) =~= calls.take(made));
        lemma_at_most_one_stream_at_any_time(calls.drop_last(), made);
    }
}

/// While a stream is live no further one can be opened, whatever the native
/// initializer would answer: the call is not admitted.
pub proof fn lemma_second_open_refused(calls: Seq<StreamCall>, init_result: i32)
    requires
        Streams::initial().admits_all(calls),
        Streams::initial().run(calls).live > 0,
    ensures
        !Streams::initial().run(calls).admits(StreamCall::Open { init_result }),
{
    lemma_at_most_one_stream(calls);
}

} // verus!
