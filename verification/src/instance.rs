//! An instantiated module and its lifecycle.
//!
//! The lifecycle runs `Uninstantiated` → `ThreadEnvReady` → `Instance` →
//! `TornDown`. Each state is a type of its own, and each step takes the state
//! before it by value, so no step can be made twice or out of order. The
//! native calls are made by the embedder: a state says which call is due, and
//! the step takes what the call returned.

use vstd::prelude::*;
use vstd::utf8::decode_utf8;
use vstd::utf8::valid_utf8;
use crate::user_data::reclaimed;
use crate::user_data::slot_after_write;
use crate::user_data::ExecEnv;

verus! {

/// The capacity in bytes of the buffer that the engine writes its diagnostic
/// text into.
pub const DEFAULT_ERROR_BUF_SIZE: u32 = 128;

/// What went wrong in this layer.
#[derive(Debug)]
pub enum RuntimeError {
    /// The module could not be instantiated; the message says why.
    InstantiationFailure(String),
}

impl View for RuntimeError {
    type V = Seq<char>;

    /// The message.
    open spec fn view(&self) -> Seq<char> {
        match self {
            RuntimeError::InstantiationFailure(message) => message@,
        }
    }
}

impl RuntimeError {
    /// The message.
    pub fn message(&self) -> (message: &String)
        ensures
            message@ == self@,
    {
        match self {
            RuntimeError::InstantiationFailure(message) => message,
        }
    }
}

/// The message of the failure to set up the calling thread's environment.
pub open spec fn thread_env_failure() -> Seq<char> {
    "thread signal env initialized failed"@
}

/// The message of a failed instantiation of which the engine says nothing.
pub open spec fn generic_failure() -> Seq<char> {
    "instantiation failed"@
}

/// A native operation of the lifecycle, for the embedder to perform.
#[derive(Clone, Copy, Debug, PartialEq, Eq, Structural)]
pub enum NativeCall {
    /// Set up the calling thread's signal and execution environment.
    InitThreadEnv,
    /// Instantiate the module with these sizes, into an error buffer of
    /// `error_buf_size` bytes.
    Instantiate { stack_size: u32, heap_size: u32, error_buf_size: u32 },
    /// Destroy the calling thread's environment.
    DestroyThreadEnv,
    /// Deinstantiate the instance behind this handle.
    Deinstantiate { instance: usize },
}

/// The length of the text at the start of `buf`: the number of bytes before
/// the first NUL byte, or all of them where there is none.
pub open spec fn diagnostic_len(buf: Seq<u8>) -> nat
    decreases buf.len(),
{
    if buf.len() == 0 || buf[0] == 0u8 {
        0
    } else {
        1 + diagnostic_len(buf.drop_first())
    }
}

/// The text that the engine left in `buf`: the bytes before the first NUL.
pub open spec fn diagnostic(buf: Seq<u8>) -> Seq<u8> {
    buf.take(diagnostic_len(buf) as int)
}

/// `n` is the length of the text in `buf` where no byte before position `n`
/// is NUL and the buffer ends there or holds a NUL there.
pub proof fn lemma_diagnostic_len(buf: Seq<u8>, n: int)
    requires
        0 <= n <= buf.len(),
        forall|i: int| 0 <= i < n ==> buf[i] != 0u8,
        n == buf.len() || buf[n] == 0u8,
    ensures
        diagnostic_len(buf) == n,
    decreases n,
{
    if n > 0 {
        let rest = buf.drop_first();
        assert forall|i: int| 0 <= i < n - 1 implies rest[i] != 0u8 by {
            assert(rest[i] == buf[i + 1]);
        }
        lemma_diagnostic_len(rest, n - 1);
    }
}

/// The text in a buffer is within the buffer and holds no NUL byte.
pub proof fn lemma_diagnostic_bounds(buf: Seq<u8>)
    ensures
        diagnostic_len(buf) <= buf.len(),
        !diagnostic(buf).contains(0u8),
    decreases buf.len(),
{
    if !(buf.len() == 0 || buf[0] == 0u8) {
        let rest = buf.drop_first();
        lemma_diagnostic_bounds(rest);
        let text = diagnostic(buf);
        assert forall|i: int| 0 <= i < text.len() implies text[i] != 0u8 by {
            if i > 0 {
                assert(diagnostic(rest)[i - 1] == text[i]);
                assert(diagnostic(rest).contains(text[i]));
            }
        }
    }
}

/// Copies the engine's text out of `error_buf`.
pub fn error_buf_text(error_buf: &[u8]) -> (text: Vec<u8>)
    ensures
        text@ == diagnostic(error_buf@),
        text@.len() <= error_buf@.len(),
        !text@.contains(0u8),
{
    let mut text: Vec<u8> = Vec::new();
    let mut i: usize = 0;
    while i < error_buf.len() && error_buf[i] != 0u8
        invariant
            i <= error_buf.len(),
            text@ == error_buf@.take(i as int),
            forall|j: int| 0 <= j < i ==> error_buf@[j] != 0u8,
        decreases error_buf.len() - i,
    {
        text.push(error_buf[i]);
        proof {
            assert(error_buf@.take(i + 1) =~= error_buf@.take(i as int).push(error_buf@[i as int]));
        }
        i += 1;
    }
    proof {
        lemma_diagnostic_len(error_buf@, i as int);
        lemma_diagnostic_bounds(error_buf@);
    }
    text
}

/// The characters that a lossy UTF-8 decoding makes of `bytes`.
pub uninterp spec fn lossy_text(bytes: Seq<u8>) -> Seq<char>;

/// `String::from_utf8_lossy`: the text that the bytes encode. Of bytes that
/// are valid UTF-8 it is the decoded text; elsewhere the standard library
/// puts a replacement character for each invalid sequence, which the
/// contract only names.
#[verifier::external_body]
fn decode_lossy(bytes: &[u8]) -> (text: String)
    ensures
        text@ == lossy_text(bytes@),
        valid_utf8(bytes@) ==> text@ == decode_utf8(bytes@),
{
    String::from_utf8_lossy(bytes).into_owned()
}

/// The message of a failed instantiation after which the engine left `text`:
/// the text where there is any, else the generic message.
pub open spec fn failure_message(text: Seq<u8>) -> Seq<char> {
    if text.len() == 0 {
        generic_failure()
    } else {
        lossy_text(text)
    }
}

/// The error of a failed instantiation after which the engine left
/// `error_buf`.
pub fn instantiation_failure(error_buf: &[u8]) -> (error: RuntimeError)
    ensures
        error@ == failure_message(diagnostic(error_buf@)),
        diagnostic(error_buf@).len() > 0 && valid_utf8(diagnostic(error_buf@)) ==> error@
            == decode_utf8(diagnostic(error_buf@)),
{
    let text = error_buf_text(error_buf);
    if text.len() == 0 {
        RuntimeError::InstantiationFailure("instantiation failed".to_owned())
    } else {
        RuntimeError::InstantiationFailure(decode_lossy(text.as_slice()))
    }
}

/// The first state: nothing was asked of the engine yet.
pub struct Uninstantiated<T> {
    stack_size: u32,
    heap_size: u32,
    data: T,
}

/// The second state: the calling thread's environment is set up.
pub struct ThreadEnvReady<T> {
    stack_size: u32,
    heap_size: u32,
    data: T,
}

/// The third state: an instantiated module with its attached context.
pub struct Instance<T> {
    instance: usize,
    exec_env: ExecEnv<T>,
}

/// The last state: the context was taken back, and what is left to do is the
/// native calls, in their order.
pub struct TornDown<T> {
    /// The context that was attached, for disposal; `None` where the slot was
    /// null.
    pub context: Option<T>,
    /// The native calls that end the instance, in the order in which they
    /// are to be made.
    pub native_calls: Vec<NativeCall>,
}

impl<T> Uninstantiated<T> {
    pub closed spec fn stack_size(&self) -> u32 {
        self.stack_size
    }

    pub closed spec fn heap_size(&self) -> u32 {
        self.heap_size
    }

    pub closed spec fn data(&self) -> T {
        self.data
    }

    /// The native call that is due: the setup of the thread's environment.
    pub fn native_call(&self) -> (call: NativeCall)
        ensures
            call == NativeCall::InitThreadEnv,
    {
        NativeCall::InitThreadEnv
    }

    /// Takes the result of the thread environment's setup. Where the engine
    /// reports failure, so does this step; nothing was allocated yet.
    pub fn thread_env_initialized(self, initialized: bool) -> (next: Result<
        ThreadEnvReady<T>,
        RuntimeError,
    >)
        ensures
            initialized <==> next is Ok,
            next matches Ok(ready) ==> {
                &&& ready.stack_size() == self.stack_size()
                &&& ready.heap_size() == self.heap_size()
                &&& ready.data() == self.data()
            },
            next matches Err(error) ==> error@ == thread_env_failure(),
    {
        if !initialized {
            return Err(
                RuntimeError::InstantiationFailure(
                    "thread signal env initialized failed".to_owned(),
                ),
            );
        }
        Ok(ThreadEnvReady { stack_size: self.stack_size, heap_size: self.heap_size, data: self.data })
    }
}

impl<T> ThreadEnvReady<T> {
    pub closed spec fn stack_size(&self) -> u32 {
        self.stack_size
    }

    pub closed spec fn heap_size(&self) -> u32 {
        self.heap_size
    }

    pub closed spec fn data(&self) -> T {
        self.data
    }

    /// The native call that is due: the instantiation, with the requested
    /// sizes and the error buffer's fixed capacity.
    pub fn native_call(&self) -> (call: NativeCall)
        ensures
            call == (NativeCall::Instantiate {
                stack_size: self.stack_size(),
                heap_size: self.heap_size(),
                error_buf_size: DEFAULT_ERROR_BUF_SIZE,
            }),
    {
        NativeCall::Instantiate {
            stack_size: self.stack_size,
            heap_size: self.heap_size,
            error_buf_size: DEFAULT_ERROR_BUF_SIZE,
        }
    }

    /// Takes the result of the instantiation: the handle that the engine
    /// returned, and the error buffer as it left it. A null handle is a
    /// failure, with the engine's text as the message where there is any;
    /// any other handle gives the instance, with the context attached.
    pub fn instantiated(self, instance: usize, error_buf: &[u8]) -> (next: Result<
        Instance<T>,
        RuntimeError,
    >)
        ensures
            instance == 0 <==> next is Err,
            next matches Ok(created) ==> {
                &&& created.handle() == instance
                &&& created.context() == Some(self.data())
            },
            next matches Err(error) ==> {
                &&& error@ == failure_message(diagnostic(error_buf@))
                &&& diagnostic(error_buf@).len() > 0 && valid_utf8(diagnostic(error_buf@))
                    ==> error@ == decode_utf8(diagnostic(error_buf@))
            },
    {
        if instance == 0 {
            return Err(instantiation_failure(error_buf));
        }
        let mut exec_env: ExecEnv<T> = ExecEnv::new();
        exec_env.install(self.data);
        Ok(Instance { instance, exec_env })
    }
}

impl<T> Instance<T> {
    /// The native handle.
    pub closed spec fn handle(&self) -> usize {
        self.instance
    }

    /// The attached context, or `None` where the slot is null.
    pub closed spec fn context(&self) -> Option<T> {
        self.exec_env@
    }

    /// Starts the lifecycle of an instance with the given stack size, no
    /// host-managed heap, and `data` as the context to attach.
    pub fn new(stack_size: u32, data: T) -> (start: Uninstantiated<T>)
        ensures
            start.stack_size() == stack_size,
            start.heap_size() == 0,
            start.data() == data,
    {
        Self::new_with_args(stack_size, 0, data)
    }

    /// Starts the lifecycle of an instance with the given stack size and
    /// host-managed heap size, and `data` as the context to attach.
    pub fn new_with_args(stack_size: u32, heap_size: u32, data: T) -> (start: Uninstantiated<T>)
        ensures
            start.stack_size() == stack_size,
            start.heap_size() == heap_size,
            start.data() == data,
    {
        Uninstantiated { stack_size, heap_size, data }
    }

    /// The native handle.
    pub fn get_inner_instance(&self) -> (instance: usize)
        ensures
            instance == self.handle(),
    {
        self.instance
    }

    /// Whether a context is attached, which `data` and `data_mut` ask for.
    pub fn has_data(&self) -> (attached: bool)
        ensures
            attached == (self.context() is Some),
    {
        !self.exec_env.is_null()
    }

    /// The singleton execution context, as it is handed to a host function.
    pub fn get_exec_env(&mut self) -> (env: &mut ExecEnv<T>)
        ensures
            env@ == old(self).context(),
            final(self).context() == final(env)@,
            final(self).handle() == old(self).handle(),
    {
        &mut self.exec_env
    }

    /// The attached context.
    pub fn data(&self) -> (context: &T)
        requires
            self.context() is Some,
        ensures
            *context == self.context()->0,
    {
        self.exec_env.read()
    }

    /// The attached context, for mutation in place: what the caller leaves
    /// behind the reference is what the next read sees.
    pub fn data_mut(&mut self) -> (context: &mut T)
        requires
            old(self).context() is Some,
        ensures
            *context == old(self).context()->0,
            final(self).context() == slot_after_write(old(self).context(), *final(context)),
            final(self).handle() == old(self).handle(),
    {
        self.exec_env.read_mut()
    }

    /// Ends the instance. The context is taken back first, while the handle
    /// is still good for it; a null slot is passed over. Then come the
    /// thread environment's destruction and the deinstantiation, in that
    /// order, for the embedder to perform.
    pub fn teardown(self) -> (end: TornDown<T>)
        ensures
            end.context == reclaimed(self.context()),
            end.native_calls@ == seq![
                NativeCall::DestroyThreadEnv,
                NativeCall::Deinstantiate { instance: self.handle() },
            ],
    {
        let mut exec_env = self.exec_env;
        let context = exec_env.reclaim();
        let mut native_calls: Vec<NativeCall> = Vec::new();
        native_calls.push(NativeCall::DestroyThreadEnv);
        native_calls.push(NativeCall::Deinstantiate { instance: self.instance });
        proof {
            assert(native_calls@ =~= seq![
                NativeCall::DestroyThreadEnv,
                NativeCall::Deinstantiate { instance: self.handle() },
            ]);
        }
        TornDown { context, native_calls }
    }
}

} // verus!
