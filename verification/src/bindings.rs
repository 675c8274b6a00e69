//! The binding table, which holds the six resolved entry points and the flag
//! that keeps the stream single, and the stream handle that it gives out.
use vstd::prelude::*;
use crate::error::KDMAPIError;
use crate::lifecycle::{
    flag_after, gives_handle, init_succeeded, initialize_succeeded, StreamCall, Streams,
};

verus! {

/// The dynamic bindings for KDMAPI.
///
/// The table holds one function value for each native entry point and the
/// `stream_open` flag. The entry points are resolved before the table is
/// made and never again; the flag is the only part that changes.
pub struct KDMAPIBinds<A, I, T, R, S, N> where
    A: Fn() -> bool,
    I: Fn() -> i32,
    T: Fn() -> i32,
    R: Fn() -> (),
    S: Fn(u32) -> u32,
    N: Fn(u32) -> u32,
 {
    is_kdmapi_available: A,
    initialize_kdmapi_stream: I,
    terminate_kdmapi_stream: T,
    reset_kdmapi_stream: R,
    send_direct_data: S,
    send_direct_data_no_buf: N,
    is_stream_open: bool,
}

/// What a binding table is made of, for use in contracts.
pub ghost struct KDMAPIBindsView<A, I, T, R, S, N> {
    pub is_kdmapi_available: A,
    pub initialize_kdmapi_stream: I,
    pub terminate_kdmapi_stream: T,
    pub reset_kdmapi_stream: R,
    pub send_direct_data: S,
    pub send_direct_data_no_buf: N,
    pub stream_open: bool,
}

impl<A, I, T, R, S, N> KDMAPIBindsView<A, I, T, R, S, N> where
    A: Fn() -> bool,
    I: Fn() -> i32,
    T: Fn() -> i32,
    R: Fn() -> (),
    S: Fn(u32) -> u32,
    N: Fn(u32) -> u32,
 {
    /// The same table after `call`: the entry points stay, the flag moves.
    pub open spec fn after(self, call: StreamCall) -> Self {
        KDMAPIBindsView { stream_open: flag_after(self.stream_open, call), ..self }
    }

    /// The table as the state machine of streams sees it. A table has one
    /// live stream while its flag is set and none otherwise.
    pub open spec fn streams(self) -> Streams {
        Streams { stream_open: self.stream_open, live: if self.stream_open { 1 } else { 0 } }
    }
}

impl<A, I, T, R, S, N> View for KDMAPIBinds<A, I, T, R, S, N> where
    A: Fn() -> bool,
    I: Fn() -> i32,
    T: Fn() -> i32,
    R: Fn() -> (),
    S: Fn(u32) -> u32,
    N: Fn(u32) -> u32,
 {
    type V = KDMAPIBindsView<A, I, T, R, S, N>;

    closed spec fn view(&self) -> Self::V {
        KDMAPIBindsView {
            is_kdmapi_available: self.is_kdmapi_available,
            initialize_kdmapi_stream: self.initialize_kdmapi_stream,
            terminate_kdmapi_stream: self.terminate_kdmapi_stream,
            reset_kdmapi_stream: self.reset_kdmapi_stream,
            send_direct_data: self.send_direct_data,
            send_direct_data_no_buf: self.send_direct_data_no_buf,
            stream_open: self.is_stream_open,
        }
    }
}

/// Makes the binding table from the six resolved entry points, with no
/// stream open.
pub fn load_kdmapi_binds<A, I, T, R, S, N>(
    is_kdmapi_available: A,
    initialize_kdmapi_stream: I,
    terminate_kdmapi_stream: T,
    reset_kdmapi_stream: R,
    send_direct_data: S,
    send_direct_data_no_buf: N,
) -> (binds: KDMAPIBinds<A, I, T, R, S, N>) where
    A: Fn() -> bool,
    I: Fn() -> i32,
    T: Fn() -> i32,
    R: Fn() -> (),
    S: Fn(u32) -> u32,
    N: Fn(u32) -> u32,

    requires
        call_requires(is_kdmapi_available, ()),
        call_requires(initialize_kdmapi_stream, ()),
        call_requires(terminate_kdmapi_stream, ()),
        call_requires(reset_kdmapi_stream, ()),
        forall|data: u32| call_requires(send_direct_data, (data,)),
        forall|data: u32| call_requires(send_direct_data_no_buf, (data,)),
    ensures
        binds@ == (KDMAPIBindsView {
            is_kdmapi_available,
            initialize_kdmapi_stream,
            terminate_kdmapi_stream,
            reset_kdmapi_stream,
            send_direct_data,
            send_direct_data_no_buf,
            stream_open: false,
        }),
        binds@.streams() == Streams::initial(),
{
    KDMAPIBinds {
        is_kdmapi_available,
        initialize_kdmapi_stream,
        terminate_kdmapi_stream,
        reset_kdmapi_stream,
        send_direct_data,
        send_direct_data_no_buf,
        is_stream_open: false,
    }
}

impl<A, I, T, R, S, N> KDMAPIBinds<A, I, T, R, S, N> where
    A: Fn() -> bool,
    I: Fn() -> i32,
    T: Fn() -> i32,
    R: Fn() -> (),
    S: Fn(u32) -> u32,
    N: Fn(u32) -> u32,
 {
    /// Every entry point that the table holds may be called.
    #[verifier::type_invariant]
    spec fn entry_points_callable(self) -> bool {
        &&& call_requires(self.is_kdmapi_available, ())
        &&& call_requires(self.initialize_kdmapi_stream, ())
        &&& call_requires(self.terminate_kdmapi_stream, ())
        &&& call_requires(self.reset_kdmapi_stream, ())
        &&& forall|data: u32| call_requires(self.send_direct_data, (data,))
        &&& forall|data: u32| call_requires(self.send_direct_data_no_buf, (data,))
    }

    /// Tells whether the table's stream is open.
    pub fn is_stream_open(&self) -> (open: bool)
        ensures
            open == self@.stream_open,
    {
        self.is_stream_open
    }

    /// Calls `IsKDMAPIAvailable` and returns what it reports.
    pub fn is_kdmapi_available(&self) -> (available: bool)
        ensures
            call_ensures(self@.is_kdmapi_available, (), available),
    {
        proof {
            use_type_invariant(self);
        }
        (self.is_kdmapi_available)()
    }

    /// Calls `InitializeKDMAPIStream` and returns a stream handle with access
    /// to the stream functions.
    ///
    /// The table must not have a stream open. Where the native initializer
    /// returns zero, no handle is made and the flag stays clear; otherwise
    /// the flag is set for as long as the handle lives, and the handle holds
    /// the table until it is closed.
    pub fn open_stream<'a>(&'a mut self) -> (stream: Result<
        KDMAPIStream<'a, A, I, T, R, S, N>,
        KDMAPIError,
    >)
        requires
            !old(self)@.stream_open,
        ensures
            opens_as(old(self)@, stream),
            (match stream {
                Ok(handle) => *final(self) == *final(handle.binds()),
                Err(_) => *final(self) == *old(self),
            }),
    {
        proof {
            use_type_invariant(&*self);
        }
        let init_result = (self.initialize_kdmapi_stream)();
        assert(call_ensures(old(self)@.initialize_kdmapi_stream, (), init_result));
        if initialize_succeeded(init_result) {
            self.is_stream_open = true;
            Ok(KDMAPIStream::over(self))
        } else {
            Err(KDMAPIError::NativeInitFailed)
        }
    }

    /// Opens a stream as `open_stream` does, on any table: where the table's
    /// stream is open already, the call is refused with
    /// `KDMAPIError::StreamAlreadyOpen` and the table is left alone.
    pub fn try_open_stream<'a>(&'a mut self) -> (stream: Result<
        KDMAPIStream<'a, A, I, T, R, S, N>,
        KDMAPIError,
    >)
        ensures
            old(self)@.stream_open ==> (stream matches Err(error) && error
                == KDMAPIError::StreamAlreadyOpen),
            !old(self)@.stream_open ==> opens_as(old(self)@, stream),
            (match stream {
                Ok(handle) => *final(self) == *final(handle.binds()),
                Err(_) => *final(self) == *old(self),
            }),
    {
        if self.is_stream_open {
            Err(KDMAPIError::StreamAlreadyOpen)
        } else {
            self.open_stream()
        }
    }

    /// Returns the handle of the table's open stream, if there is one.
    ///
    /// A handle that is let go without being closed leaves the stream open;
    /// this is how it is taken up again.
    pub fn current_stream<'a>(&'a mut self) -> (stream: Option<KDMAPIStream<'a, A, I, T, R, S, N>>)
        ensures
            stream is Some <==> old(self)@.stream_open,
            (match stream {
                Some(handle) => {
                    &&& *handle.binds() == *old(self)
                    &&& *final(self) == *final(handle.binds())
                },
                None => *final(self) == *old(self),
            }),
    {
        if self.is_stream_open {
            Some(KDMAPIStream::over(self))
        } else {
            None
        }
    }
}

/// What `open_stream` returns on a table that was `before`, if the native
/// initializer answers `init_result`: a handle on the table with the flag
/// set, or the error and nothing else.
pub open spec fn opening_outcome<'a, A, I, T, R, S, N>(
    before: KDMAPIBindsView<A, I, T, R, S, N>,
    init_result: i32,
    stream: Result<KDMAPIStream<'a, A, I, T, R, S, N>, KDMAPIError>,
) -> bool where
    A: Fn() -> bool,
    I: Fn() -> i32,
    T: Fn() -> i32,
    R: Fn() -> (),
    S: Fn(u32) -> u32,
    N: Fn(u32) -> u32,
 {
    let call = StreamCall::Open { init_result };
    match stream {
        Ok(handle) => gives_handle(call) && handle.binds()@ == before.after(call),
        Err(error) => !gives_handle(call) && error == KDMAPIError::NativeInitFailed,
    }
}

/// Whether `stream` is what an opening of the table `before` may return: the
/// outcome for one of the results that the table's native initializer can
/// give.
pub open spec fn opens_as<'a, A, I, T, R, S, N>(
    before: KDMAPIBindsView<A, I, T, R, S, N>,
    stream: Result<KDMAPIStream<'a, A, I, T, R, S, N>, KDMAPIError>,
) -> bool where
    A: Fn() -> bool,
    I: Fn() -> i32,
    T: Fn() -> i32,
    R: Fn() -> (),
    S: Fn(u32) -> u32,
    N: Fn(u32) -> u32,
 {
    exists|init_result: i32| #[trigger]
        call_ensures(before.initialize_kdmapi_stream, (), init_result) && opening_outcome(
            before,
            init_result,
            stream,
        )
}

/// Access to KDMAPI's stream functions.
///
/// A handle stands for the open stream of the table that it borrows. The
/// table gives one out when it opens a stream, and again on request for as
/// long as the stream is open; since the handle borrows the table for itself
/// alone, there is never a second one beside it. Closing the handle ends the
/// stream. Letting it go without closing leaves the stream open.
pub struct KDMAPIStream<'a, A, I, T, R, S, N> where
    A: Fn() -> bool,
    I: Fn() -> i32,
    T: Fn() -> i32,
    R: Fn() -> (),
    S: Fn(u32) -> u32,
    N: Fn(u32) -> u32,
 {
    binds: &'a mut KDMAPIBinds<A, I, T, R, S, N>,
}

impl<'a, A, I, T, R, S, N> KDMAPIStream<'a, A, I, T, R, S, N> where
    A: Fn() -> bool,
    I: Fn() -> i32,
    T: Fn() -> i32,
    R: Fn() -> (),
    S: Fn(u32) -> u32,
    N: Fn(u32) -> u32,
 {
    /// The table's flag is set while the handle lives.
    #[verifier::type_invariant]
    spec fn table_has_stream_open(self) -> bool {
        self.binds@.stream_open
    }

    /// The table that the handle borrows.
    pub closed spec fn binds(self) -> &'a mut KDMAPIBinds<A, I, T, R, S, N> {
        self.binds
    }

    /// Makes the handle for a table whose flag was just set.
    fn over(binds: &'a mut KDMAPIBinds<A, I, T, R, S, N>) -> (stream: Self)
        requires
            old(binds)@.stream_open,
        ensures
            *stream.binds() == *old(binds),
            *final(stream.binds()) == *final(binds),
    {
        KDMAPIStream { binds }
    }

    /// A handle that is let go without being closed hands the table back as
    /// it is, with the flag still set.
    pub proof fn lemma_let_go(self)
        requires
            has_resolved(self),
        ensures
            *final(self.binds()) == *self.binds(),
    {
    }

    /// Returns the table that the handle borrows, for reading.
    pub fn table(&self) -> (table: &KDMAPIBinds<A, I, T, R, S, N>)
        ensures
            *table == *self.binds(),
            table@.stream_open,
    {
        proof {
            use_type_invariant(self);
        }
        &*self.binds
    }

    /// Calls `ResetKDMAPIStream`.
    pub fn reset(&self)
        ensures
            call_ensures(self.binds()@.reset_kdmapi_stream, (), ()),
    {
        proof {
            use_type_invariant(&*self.binds);
        }
        (self.binds.reset_kdmapi_stream)()
    }

    /// Calls `SendDirectData` with `data` and returns its status as it is.
    pub fn send_direct_data(&self, data: u32) -> (status: u32)
        ensures
            call_ensures(self.binds()@.send_direct_data, (data,), status),
    {
        proof {
            use_type_invariant(&*self.binds);
        }
        (self.binds.send_direct_data)(data)
    }

    /// Calls `SendDirectDataNoBuf` with `data` and returns its status as it
    /// is.
    pub fn send_direct_data_no_buf(&self, data: u32) -> (status: u32)
        ensures
            call_ensures(self.binds()@.send_direct_data_no_buf, (data,), status),
    {
        proof {
            use_type_invariant(&*self.binds);
        }
        (self.binds.send_direct_data_no_buf)(data)
    }

    /// Calls `TerminateKDMAPIStream`, drops its result and clears the table's
    /// flag. The handle is used up, and the table is free again.
    pub fn close(self)
        ensures
            exists|result: i32| call_ensures(self.binds()@.terminate_kdmapi_stream, (), result),
            final(self.binds())@ == self.binds()@.after(StreamCall::Release),
    {
        let binds = self.binds;
        proof {
            use_type_invariant(&*binds);
        }
        let result = (binds.terminate_kdmapi_stream)();
        assert(call_ensures(self.binds()@.terminate_kdmapi_stream, (), result));
        binds.is_stream_open = false;
    }
}

/// The table moves as the state machine of streams does: on every call that
/// the machine admits, the table after the call is the machine's next state.
/// What is proved of the machine's runs therefore holds of tables, which
/// start out as the machine does and count their streams as it does.
pub proof fn lemma_table_follows_streams<A, I, T, R, S, N>(
    table: KDMAPIBindsView<A, I, T, R, S, N>,
    call: StreamCall,
) where
    A: Fn() -> bool,
    I: Fn() -> i32,
    T: Fn() -> i32,
    R: Fn() -> (),
    S: Fn(u32) -> u32,
    N: Fn(u32) -> u32,

    requires
        table.streams().admits(call),
    ensures
        table.after(call).streams() == table.streams().step(call),
{
}

/// Once a stream is released the table's flag is clear, which is all that
/// `open_stream` asks for; and the next opening gives a handle, with the flag
/// set again, if the native initializer reports success.
pub proof fn lemma_release_allows_reopening<'a, A, I, T, R, S, N>(
    table: KDMAPIBindsView<A, I, T, R, S, N>,
    init_result: i32,
    stream: Result<KDMAPIStream<'a, A, I, T, R, S, N>, KDMAPIError>,
) where
    A: Fn() -> bool,
    I: Fn() -> i32,
    T: Fn() -> i32,
    R: Fn() -> (),
    S: Fn(u32) -> u32,
    N: Fn(u32) -> u32,

    requires
        init_succeeded(init_result),
        opening_outcome(table.after(StreamCall::Release), init_result, stream),
    ensures
        !table.after(StreamCall::Release).stream_open,
        stream matches Ok(handle) && handle.binds()@.stream_open,
{
}

/// A stream that is opened and released leaves a closed table exactly as it
/// was, so a second round ends in the state in which the first ended.
pub proof fn lemma_rounds_end_alike<A, I, T, R, S, N>(
    table: KDMAPIBindsView<A, I, T, R, S, N>,
    first: i32,
    second: i32,
) where
    A: Fn() -> bool,
    I: Fn() -> i32,
    T: Fn() -> i32,
    R: Fn() -> (),
    S: Fn(u32) -> u32,
    N: Fn(u32) -> u32,

    requires
        !table.stream_open,
        init_succeeded(first),
        init_succeeded(second),
    ensures
        ({
            let once = table.after(StreamCall::Open { init_result: first }).after(
                StreamCall::Release,
            );
            let twice = once.after(StreamCall::Open { init_result: second }).after(
                StreamCall::Release,
            );
            &&& table.after(StreamCall::Open { init_result: first }).stream_open
            &&& once == table
            &&& once.after(StreamCall::Open { init_result: second }).stream_open
            &&& twice == once
        }),
{
}

} // verus!
