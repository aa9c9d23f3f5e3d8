//! Host functions: their calling-convention signatures and the registry that
//! collects them for one guest module namespace.

use vstd::prelude::*;
use vstd::string::StringSliceAdditionalSpecFns;
use vstd::string::StrSliceExecFns;

verus! {

/// `i`: a 32-bit integer.
pub const CODE_I32: u8 = 0x69;

/// `I`: a 64-bit integer.
pub const CODE_I64: u8 = 0x49;

/// `f`: a 32-bit float.
pub const CODE_F32: u8 = 0x66;

/// `F`: a 64-bit float.
pub const CODE_F64: u8 = 0x46;

/// `$`: a string parameter.
pub const CODE_STR: u8 = 0x24;

/// `*`: a pointer parameter; also the first character of a buffer parameter.
pub const CODE_POINTER: u8 = 0x2a;

/// `~`: the second character of a buffer parameter, which follows `*`.
pub const CODE_LENGTH: u8 = 0x7e;

/// The kind of one parameter of a host function.
#[derive(Clone, Copy, Debug, PartialEq, Eq, Structural)]
pub enum ParamTy {
    I32,
    I64,
    F32,
    F64,
    Str,
    Pointer,
    Buffer,
}

/// The kind of the result of a host function.
#[derive(Clone, Copy, Debug, PartialEq, Eq, Structural)]
pub enum ResultTy {
    I32,
    I64,
    F32,
    F64,
    Void,
}

impl ParamTy {
    /// The characters that stand for this parameter kind in a signature.
    pub open spec fn encoding(self) -> Seq<u8> {
        match self {
            ParamTy::I32 => seq![CODE_I32],
            ParamTy::I64 => seq![CODE_I64],
            ParamTy::F32 => seq![CODE_F32],
            ParamTy::F64 => seq![CODE_F64],
            ParamTy::Str => seq![CODE_STR],
            ParamTy::Pointer => seq![CODE_POINTER],
            ParamTy::Buffer => seq![CODE_POINTER, CODE_LENGTH],
        }
    }

    /// Appends this kind's encoding to `sig`.
    pub fn encode(&self, sig: &mut Vec<u8>)
        ensures
            final(sig)@ == old(sig)@ + self.encoding(),
    {
        match self {
            ParamTy::I32 => sig.push(CODE_I32),
            ParamTy::I64 => sig.push(CODE_I64),
            ParamTy::F32 => sig.push(CODE_F32),
            ParamTy::F64 => sig.push(CODE_F64),
            ParamTy::Str => sig.push(CODE_STR),
            ParamTy::Pointer => sig.push(CODE_POINTER),
            ParamTy::Buffer => {
                sig.push(CODE_POINTER);
                sig.push(CODE_LENGTH);
            },
        }
        assert(sig@ =~= old(sig)@ + self.encoding());
    }
}

impl ResultTy {
    /// The characters that stand for this result kind in a signature: one
    /// character, or none for `Void`.
    pub open spec fn encoding(self) -> Seq<u8> {
        match self {
            ResultTy::I32 => seq![CODE_I32],
            ResultTy::I64 => seq![CODE_I64],
            ResultTy::F32 => seq![CODE_F32],
            ResultTy::F64 => seq![CODE_F64],
            ResultTy::Void => Seq::empty(),
        }
    }

    /// Appends this kind's encoding to `sig`.
    pub fn encode(&self, sig: &mut Vec<u8>)
        ensures
            final(sig)@ == old(sig)@ + self.encoding(),
    {
        match self {
            ResultTy::I32 => sig.push(CODE_I32),
            ResultTy::I64 => sig.push(CODE_I64),
            ResultTy::F32 => sig.push(CODE_F32),
            ResultTy::F64 => sig.push(CODE_F64),
            ResultTy::Void => {},
        }
        assert(sig@ =~= old(sig)@ + self.encoding());
    }
}

/// The encoding of a parameter list: the encodings of its kinds, in the order
/// of declaration.
pub open spec fn params_encoding(params: Seq<ParamTy>) -> Seq<u8>
    decreases params.len(),
{
    if params.len() == 0 {
        Seq::empty()
    } else {
        params_encoding(params.drop_last()) + params.last().encoding()
    }
}

/// The signature of a host function: the parameters' encodings followed by
/// the result's.
pub open spec fn signature_encoding(params: Seq<ParamTy>, result: ResultTy) -> Seq<u8> {
    params_encoding(params) + result.encoding()
}

/// Encoding preserves order: the encoding of two parameter lists, one after
/// the other, is the first list's encoding followed by the second's.
pub proof fn lemma_params_encoding_concat(first: Seq<ParamTy>, second: Seq<ParamTy>)
    ensures
        params_encoding(first + second) == params_encoding(first) + params_encoding(second),
    decreases second.len(),
{
    if second.len() == 0 {
        assert(first + second =~= first);
        assert(params_encoding(first) + params_encoding(second) =~= params_encoding(first));
    } else {
        lemma_params_encoding_concat(first, second.drop_last());
        assert((first + second).drop_last() =~= first + second.drop_last());
        assert((first + second).last() == second.last());
        assert(params_encoding(first + second) =~= params_encoding(first) + params_encoding(
            second,
        ));
    }
}

/// The signature of a host function of one parameter is that parameter's
/// characters followed by the result's, for every pair of kinds.
pub proof fn lemma_signature_of_one_param(param: ParamTy, result: ResultTy)
    ensures
        signature_encoding(seq![param], result) == param.encoding() + result.encoding(),
{
    assert(seq![param].drop_last() =~= Seq::<ParamTy>::empty());
    assert(params_encoding(Seq::<ParamTy>::empty()) =~= Seq::<u8>::empty());
    assert(seq![param].last() == param);
    assert(params_encoding(seq![param]) =~= param.encoding());
}

/// No parameter list has a NUL byte in its encoding.
pub proof fn lemma_params_encoding_has_no_nul(params: Seq<ParamTy>)
    ensures
        !params_encoding(params).contains(0u8),
    decreases params.len(),
{
    if params.len() > 0 {
        lemma_params_encoding_has_no_nul(params.drop_last());
        let head = params_encoding(params.drop_last());
        let tail = params.last().encoding();
        assert forall|i: int| 0 <= i < (head + tail).len() implies (head + tail)[i] != 0u8 by {
            if i < head.len() {
                assert(head.contains(head[i]));
            }
        }
    }
}

/// No signature has a NUL byte in it, so each can be NUL-terminated.
pub proof fn lemma_signature_has_no_nul(params: Seq<ParamTy>, result: ResultTy)
    ensures
        !signature_encoding(params, result).contains(0u8),
{
    lemma_params_encoding_has_no_nul(params);
    let head = params_encoding(params);
    let tail = result.encoding();
    assert forall|i: int| 0 <= i < (head + tail).len() implies (head + tail)[i] != 0u8 by {
        if i < head.len() {
            assert(head.contains(head[i]));
        }
    }
}

/// Encodes the signature of a host function with the given parameter kinds
/// and result kind.
pub fn encode_signature(params: &[ParamTy], result: ResultTy) -> (sig: Vec<u8>)
    ensures
        sig@ == signature_encoding(params@, result),
        !sig@.contains(0u8),
{
    let mut sig: Vec<u8> = Vec::new();
    let mut i: usize = 0;
    while i < params.len()
        invariant
            i <= params.len(),
            sig@ == params_encoding(params@.take(i as int)),
        decreases params.len() - i,
    {
        params[i].encode(&mut sig);
        proof {
            assert(params@.take(i + 1).drop_last() =~= params@.take(i as int));
        }
        i += 1;
    }
    proof {
        assert(params@.take(i as int) =~= params@);
        lemma_signature_has_no_nul(params@, result);
    }
    result.encode(&mut sig);
    sig
}

/// An owned byte string that ends in one NUL byte and holds no other: the
/// form in which the engine reads names and signatures.
#[derive(Debug)]
pub struct NulTerminated {
    bytes: Vec<u8>,
}

impl View for NulTerminated {
    type V = Seq<u8>;

    /// The content, without the NUL byte that ends it.
    closed spec fn view(&self) -> Seq<u8> {
        self.bytes@.drop_last()
    }
}

impl NulTerminated {
    #[verifier::type_invariant]
    spec fn ends_in_only_nul(self) -> bool {
        &&& self.bytes@.len() > 0
        &&& self.bytes@.last() == 0u8
        &&& !self.bytes@.drop_last().contains(0u8)
    }

    /// Whether `text` can be NUL-terminated: whether none of its bytes is
    /// NUL.
    pub fn accepts(text: &str) -> (ok: bool)
        ensures
            ok == !text.spec_bytes().contains(0u8),
    {
        let bytes = text.as_bytes();
        let mut i: usize = 0;
        while i < bytes.len()
            invariant
                i <= bytes.len(),
                bytes@ == text.spec_bytes(),
                forall|j: int| 0 <= j < i ==> bytes@[j] != 0u8,
            decreases bytes.len() - i,
        {
            if bytes[i] == 0u8 {
                return false;
            }
            i += 1;
        }
        true
    }

    /// Ends `content` with a NUL byte.
    pub fn new(content: Vec<u8>) -> (s: Self)
        requires
            !content@.contains(0u8),
        ensures
            s@ == content@,
    {
        let mut bytes = content;
        bytes.push(0u8);
        proof {
            assert(bytes@.drop_last() =~= content@);
        }
        NulTerminated { bytes }
    }

    /// The UTF-8 bytes of `text`, ended with a NUL byte.
    pub fn from_str(text: &str) -> (s: Self)
        requires
            !text.spec_bytes().contains(0u8),
        ensures
            s@ == text.spec_bytes(),
    {
        Self::new(text.as_bytes_vec())
    }

    /// The number of bytes before the NUL byte.
    pub fn len(&self) -> (n: usize)
        ensures
            n == self@.len(),
    {
        proof {
            use_type_invariant(self);
        }
        self.bytes.len() - 1
    }

    /// The bytes, the NUL byte at the end included.
    pub fn as_bytes_with_nul(&self) -> (bytes: &[u8])
        ensures
            bytes@ == self@.push(0u8),
            !self@.contains(0u8),
    {
        proof {
            use_type_invariant(self);
            assert(self.bytes@ =~= self.bytes@.drop_last().push(0u8));
        }
        self.bytes.as_slice()
    }
}

/// One registered host function, as the registry owns it: the buffers that
/// its descriptor refers to live here.
#[derive(Debug)]
pub struct HostFunction {
    function_name: NulTerminated,
    function_ptr: usize,
    signature: NulTerminated,
}

/// A registered host function as plain values.
pub struct HostFunctionView {
    pub name: Seq<u8>,
    pub address: usize,
    pub signature: Seq<u8>,
}

impl View for HostFunction {
    type V = HostFunctionView;

    closed spec fn view(&self) -> HostFunctionView {
        HostFunctionView {
            name: self.function_name@,
            address: self.function_ptr,
            signature: self.signature@,
        }
    }
}

/// The flat record that the engine consumes to wire up one host function.
///
/// `entry` is the position of the registry entry whose name and signature
/// buffers the record refers to, `func_ptr` the address of the native
/// function, and `attachment` a reserved slot that is always null (zero).
#[derive(Clone, Copy, Debug, PartialEq, Eq, Structural)]
pub struct NativeSymbol {
    pub entry: usize,
    pub func_ptr: usize,
    pub attachment: usize,
}

/// One call of `register_host_function`, as plain values.
pub struct Registration {
    pub name: Seq<u8>,
    pub address: usize,
    pub params: Seq<ParamTy>,
    pub result: ResultTy,
}

/// A registry as plain values: the module name, the entries in the order of
/// their registration, and the descriptor list.
pub struct HostFunctionListView {
    pub module_name: Seq<u8>,
    pub functions: Seq<HostFunctionView>,
    pub symbols: Seq<NativeSymbol>,
}

impl HostFunctionListView {
    /// The registry of a module with nothing registered.
    pub open spec fn empty(module_name: Seq<u8>) -> Self {
        HostFunctionListView { module_name, functions: Seq::empty(), symbols: Seq::empty() }
    }

    /// The registry after one more registration: one entry more at the end,
    /// and one descriptor more that refers to it.
    pub open spec fn register(self, r: Registration) -> Self {
        HostFunctionListView {
            module_name: self.module_name,
            functions: self.functions.push(
                HostFunctionView {
                    name: r.name,
                    address: r.address,
                    signature: signature_encoding(r.params, r.result),
                },
            ),
            symbols: self.symbols.push(
                NativeSymbol {
                    entry: self.functions.len() as usize,
                    func_ptr: r.address,
                    attachment: 0,
                },
            ),
        }
    }

    /// The registry after the registrations `rs`, made in their order.
    pub open spec fn register_all(self, rs: Seq<Registration>) -> Self
        decreases rs.len(),
    {
        if rs.len() == 0 {
            self
        } else {
            self.register_all(rs.drop_last()).register(rs.last())
        }
    }

    /// Entries and descriptors go in step: there is one descriptor for each
    /// entry, at the same position, and it refers to that entry, carries its
    /// address and has a null attachment.
    pub open spec fn synchronized(self) -> bool {
        &&& self.symbols.len() == self.functions.len()
        &&& forall|i: int|
            0 <= i < self.symbols.len() ==> #[trigger] self.symbols[i] == (NativeSymbol {
                entry: i as usize,
                func_ptr: self.functions[i].address,
                attachment: 0,
            })
    }
}

/// A registration keeps entries and descriptors in step.
pub proof fn lemma_register_keeps_synchronized(list: HostFunctionListView, r: Registration)
    requires
        list.synchronized(),
    ensures
        list.register(r).synchronized(),
{
}

/// After `rs.len()` registrations on an empty registry there are `rs.len()`
/// descriptors, and the descriptor at each position corresponds to the
/// registration made at that position: it refers to the entry there, which
/// holds that registration's name, address and encoded signature.
pub proof fn lemma_registration_order(module_name: Seq<u8>, rs: Seq<Registration>)
    ensures
        ({
            let list = HostFunctionListView::empty(module_name).register_all(rs);
            &&& list.module_name == module_name
            &&& list.synchronized()
            &&& list.symbols.len() == rs.len()
            &&& list.functions.len() == rs.len()
            &&& forall|i: int|
                0 <= i < rs.len() ==> {
                    &&& (#[trigger] list.functions[i]).name == rs[i].name
                    &&& list.functions[i].address == rs[i].address
                    &&& list.functions[i].signature == signature_encoding(
                        rs[i].params,
                        rs[i].result,
                    )
                }
        }),
    decreases rs.len(),
{
    if rs.len() > 0 {
        lemma_registration_order(module_name, rs.drop_last());
        let before = HostFunctionListView::empty(module_name).register_all(rs.drop_last());
        lemma_register_keeps_synchronized(before, rs.last());
        let list = before.register(rs.last());
        assert forall|i: int| 0 <= i < rs.len() implies {
            &&& (#[trigger] list.functions[i]).name == rs[i].name
            &&& list.functions[i].address == rs[i].address
            &&& list.functions[i].signature == signature_encoding(rs[i].params, rs[i].result)
        } by {
            if i < rs.len() - 1 {
                assert(list.functions[i] == before.functions[i]);
                assert(rs.drop_last()[i] == rs[i]);
            }
        }
    }
}

/// The host functions registered for one guest module namespace.
#[derive(Debug)]
pub struct HostFunctionList {
    module_name: NulTerminated,
    host_functions: Vec<HostFunction>,
    native_symbols: Vec<NativeSymbol>,
}

impl View for HostFunctionList {
    type V = HostFunctionListView;

    closed spec fn view(&self) -> HostFunctionListView {
        HostFunctionListView {
            module_name: self.module_name@,
            functions: Seq::new(self.host_functions@.len(), |i: int| self.host_functions@[i]@),
            symbols: self.native_symbols@,
        }
    }
}

impl HostFunctionList {
    /// A registry for the module `module_name`, with nothing registered.
    pub fn new(module_name: &str) -> (list: Self)
        requires
            !module_name.spec_bytes().contains(0u8),
        ensures
            list@ == HostFunctionListView::empty(module_name.spec_bytes()),
    {
        let list = HostFunctionList {
            module_name: NulTerminated::from_str(module_name),
            host_functions: Vec::new(),
            native_symbols: Vec::new(),
        };
        proof {
            assert(list@.functions =~= Seq::empty());
            assert(list@.symbols =~= Seq::empty());
        }
        list
    }

    /// Registers the host function at address `function_ptr` under
    /// `function_name`: appends its entry, with the signature encoded from
    /// `params` and `result`, and then the descriptor that refers to it.
    pub fn register_host_function(
        &mut self,
        function_name: &str,
        function_ptr: usize,
        params: &[ParamTy],
        result: ResultTy,
    )
        requires
            !function_name.spec_bytes().contains(0u8),
        ensures
            final(self)@ == old(self)@.register(
                Registration {
                    name: function_name.spec_bytes(),
                    address: function_ptr,
                    params: params@,
                    result,
                },
            ),
    {
        let signature = NulTerminated::new(encode_signature(params, result));
        let entry = HostFunction {
            function_name: NulTerminated::from_str(function_name),
            function_ptr,
            signature,
        };
        self.host_functions.push(entry);
        let last: usize = self.host_functions.len() - 1;
        self.native_symbols.push(pack_host_function(last, function_ptr));
        proof {
            let r = Registration {
                name: function_name.spec_bytes(),
                address: function_ptr,
                params: params@,
                result,
            };
            assert(self@.functions =~= old(self)@.register(r).functions);
            assert(self@.symbols =~= old(self)@.register(r).symbols);
        }
    }

    /// The live descriptor list, for the runtime builder to hand to the
    /// engine. What the caller leaves in it is what the registry then holds.
    pub fn get_native_symbols(&mut self) -> (symbols: &mut Vec<NativeSymbol>)
        ensures
            symbols@ == old(self)@.symbols,
            final(self)@ == (HostFunctionListView { symbols: final(symbols)@, ..old(self)@ }),
    {
        &mut self.native_symbols
    }

    /// The module name.
    pub fn get_module_name(&mut self) -> (name: &NulTerminated)
        ensures
            name@ == old(self)@.module_name,
            final(self)@ == old(self)@,
    {
        &self.module_name
    }

    /// The number of registered host functions.
    pub fn len(&self) -> (n: usize)
        ensures
            n == self@.functions.len(),
    {
        self.host_functions.len()
    }

    /// The name buffer that `symbol` refers to.
    pub fn symbol_name(&self, symbol: &NativeSymbol) -> (name: &NulTerminated)
        requires
            symbol.entry < self@.functions.len(),
        ensures
            name@ == self@.functions[symbol.entry as int].name,
    {
        &self.host_functions[symbol.entry].function_name
    }

    /// The signature buffer that `symbol` refers to.
    pub fn symbol_signature(&self, symbol: &NativeSymbol) -> (signature: &NulTerminated)
        requires
            symbol.entry < self@.functions.len(),
        ensures
            signature@ == self@.functions[symbol.entry as int].signature,
    {
        &self.host_functions[symbol.entry].signature
    }
}

/// The descriptor of the host function at `function_ptr` whose name and
/// signature the entry at position `entry` owns.
fn pack_host_function(entry: usize, function_ptr: usize) -> (symbol: NativeSymbol)
    ensures
        symbol == (NativeSymbol { entry, func_ptr: function_ptr, attachment: 0 }),
{
    NativeSymbol { entry, func_ptr: function_ptr, attachment: 0 }
}

} // verus!
