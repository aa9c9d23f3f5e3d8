use wamr_rust_sdk::host_function::encode_signature;
use wamr_rust_sdk::host_function::HostFunctionList;
use wamr_rust_sdk::host_function::NativeSymbol;
use wamr_rust_sdk::host_function::NulTerminated;
use wamr_rust_sdk::host_function::ParamTy;
use wamr_rust_sdk::host_function::ResultTy;
use wamr_rust_sdk::instance::Instance;
use wamr_rust_sdk::user_data::ExecEnv;
use wamr_rust_sdk::user_data::UserData;

fn param_code(param: ParamTy) -> Vec<u8> {
    let mut sig = Vec::new();
    param.encode(&mut sig);
    sig
}

fn result_code(result: ResultTy) -> Vec<u8> {
    let mut sig = Vec::new();
    result.encode(&mut sig);
    sig
}

#[test]
fn param_kinds_encode_as_in_the_table() {
    assert_eq!(param_code(ParamTy::I32), b"i".to_vec());
    assert_eq!(param_code(ParamTy::I64), b"I".to_vec());
    assert_eq!(param_code(ParamTy::F32), b"f".to_vec());
    assert_eq!(param_code(ParamTy::F64), b"F".to_vec());
    assert_eq!(param_code(ParamTy::Str), b"$".to_vec());
    assert_eq!(param_code(ParamTy::Pointer), b"*".to_vec());
    assert_eq!(param_code(ParamTy::Buffer), b"*~".to_vec());
}

#[test]
fn result_kinds_encode_as_in_the_table() {
    assert_eq!(result_code(ResultTy::I32), b"i".to_vec());
    assert_eq!(result_code(ResultTy::I64), b"I".to_vec());
    assert_eq!(result_code(ResultTy::F32), b"f".to_vec());
    assert_eq!(result_code(ResultTy::F64), b"F".to_vec());
    assert_eq!(result_code(ResultTy::Void), Vec::<u8>::new());
}

#[test]
fn encode_appends_to_what_is_there() {
    let mut sig = b"i".to_vec();
    ParamTy::Buffer.encode(&mut sig);
    ResultTy::I64.encode(&mut sig);
    ResultTy::Void.encode(&mut sig);
    assert_eq!(sig, b"i*~I".to_vec());
}

#[test]
fn every_param_with_every_result() {
    let params = [
        (ParamTy::I32, "i"),
        (ParamTy::I64, "I"),
        (ParamTy::F32, "f"),
        (ParamTy::F64, "F"),
        (ParamTy::Str, "$"),
        (ParamTy::Pointer, "*"),
        (ParamTy::Buffer, "*~"),
    ];
    let results = [
        (ResultTy::I32, "i"),
        (ResultTy::I64, "I"),
        (ResultTy::F32, "f"),
        (ResultTy::F64, "F"),
        (ResultTy::Void, ""),
    ];
    for (param, p) in params {
        for (result, r) in results {
            let expected = format!("{}{}", p, r).into_bytes();
            assert_eq!(encode_signature(&[param], result), expected);
        }
    }
}

#[test]
fn signature_keeps_the_order_of_the_parameters() {
    let params = [
        ParamTy::Str,
        ParamTy::Buffer,
        ParamTy::I32,
        ParamTy::Pointer,
        ParamTy::F64,
        ParamTy::I64,
        ParamTy::F32,
    ];
    assert_eq!(encode_signature(&params, ResultTy::F32), b"$*~i*FIff".to_vec());
    assert_eq!(encode_signature(&params, ResultTy::Void), b"$*~i*FIf".to_vec());
    assert_eq!(encode_signature(&[ParamTy::I32, ParamTy::I64], ResultTy::I32), b"iIi".to_vec());
    assert_eq!(encode_signature(&[ParamTy::I64, ParamTy::I32], ResultTy::I32), b"Iii".to_vec());
}

#[test]
fn signature_of_no_parameters() {
    assert_eq!(encode_signature(&[], ResultTy::Void), Vec::<u8>::new());
    assert_eq!(encode_signature(&[], ResultTy::I32), b"i".to_vec());
}

#[test]
fn signature_is_deterministic() {
    let params = [ParamTy::Buffer, ParamTy::Pointer, ParamTy::Str];
    let first = encode_signature(&params, ResultTy::I64);
    let second = encode_signature(&params, ResultTy::I64);
    assert_eq!(first, second);
    assert_eq!(first, b"*~*$I".to_vec());
}

#[test]
fn signature_of_two_lists_is_the_two_signatures_joined() {
    let first = [ParamTy::I32, ParamTy::Buffer];
    let second = [ParamTy::Str, ParamTy::F64];
    let both = [ParamTy::I32, ParamTy::Buffer, ParamTy::Str, ParamTy::F64];
    let mut joined = encode_signature(&first, ResultTy::Void);
    joined.extend(encode_signature(&second, ResultTy::Void));
    assert_eq!(encode_signature(&both, ResultTy::Void), joined);
}

#[test]
fn nul_terminated_adds_one_nul() {
    let name = NulTerminated::from_str("extra");
    assert_eq!(name.len(), 5);
    assert_eq!(name.as_bytes_with_nul(), b"extra\0");
    let empty = NulTerminated::new(Vec::new());
    assert_eq!(empty.len(), 0);
    assert_eq!(empty.as_bytes_with_nul(), b"\0");
}

#[test]
fn nul_terminated_accepts_text_without_nul_only() {
    assert!(NulTerminated::accepts("extra"));
    assert!(NulTerminated::accepts(""));
    assert!(!NulTerminated::accepts("ex\0tra"));
    assert!(!NulTerminated::accepts("\0"));
}

#[test]
fn new_registry_is_empty() {
    let mut list = HostFunctionList::new("env");
    assert_eq!(list.len(), 0);
    assert!(list.get_native_symbols().is_empty());
    assert_eq!(list.get_module_name().as_bytes_with_nul(), b"env\0");
}

#[test]
fn descriptors_follow_the_registrations() {
    let mut list = HostFunctionList::new("host");
    let names = ["alpha", "beta", "gamma", "delta"];
    let addresses = [0x1000usize, 0x2000, 0x3000, 0x4000];
    list.register_host_function(names[0], addresses[0], &[], ResultTy::Void);
    list.register_host_function(names[1], addresses[1], &[ParamTy::I32, ParamTy::I32], ResultTy::I32);
    list.register_host_function(names[2], addresses[2], &[ParamTy::Buffer], ResultTy::I64);
    list.register_host_function(names[3], addresses[3], &[ParamTy::Str, ParamTy::Pointer], ResultTy::F64);
    let signatures: [&[u8]; 4] = [b"\0", b"iii\0", b"*~I\0", b"$*F\0"];

    assert_eq!(list.len(), 4);
    let symbols: Vec<NativeSymbol> = list.get_native_symbols().clone();
    assert_eq!(symbols.len(), 4);
    for i in 0..4 {
        assert_eq!(symbols[i].entry, i);
        assert_eq!(symbols[i].func_ptr, addresses[i]);
        assert_eq!(symbols[i].attachment, 0);
        let mut expected_name = names[i].as_bytes().to_vec();
        expected_name.push(0);
        assert_eq!(list.symbol_name(&symbols[i]).as_bytes_with_nul(), &expected_name[..]);
        assert_eq!(list.symbol_signature(&symbols[i]).as_bytes_with_nul(), signatures[i]);
    }
    assert_eq!(list.get_module_name().as_bytes_with_nul(), b"host\0");
}

#[test]
fn one_registration_adds_one_descriptor_each_time() {
    let mut list = HostFunctionList::new("env");
    for n in 0..10usize {
        assert_eq!(list.get_native_symbols().len(), n);
        list.register_host_function("f", n + 1, &[ParamTy::I32], ResultTy::I32);
        assert_eq!(list.get_native_symbols().len(), n + 1);
        assert_eq!(list.get_native_symbols()[n], NativeSymbol { entry: n, func_ptr: n + 1, attachment: 0 });
    }
}

#[test]
fn descriptor_list_is_live() {
    let mut list = HostFunctionList::new("env");
    list.register_host_function("f", 7, &[], ResultTy::Void);
    list.get_native_symbols()[0].func_ptr = 9;
    assert_eq!(list.get_native_symbols()[0].func_ptr, 9);
    assert_eq!(list.len(), 1);
}

fn extra() -> i32 {
    100
}

fn guest_add(a: i32, b: i32, host: i32) -> i32 {
    a + b + host
}

fn start_instance<T>(stack_size: u32, data: T) -> Instance<T> {
    let ready = match Instance::new(stack_size, data).thread_env_initialized(true) {
        Ok(ready) => ready,
        Err(_) => panic!("the thread environment was reported ready"),
    };
    match ready.instantiated(0x5000, &[0u8; 128]) {
        Ok(instance) => instance,
        Err(_) => panic!("the handle was not null"),
    }
}

#[test]
fn test_host_function() {
    let mut list = HostFunctionList::new("env");
    list.register_host_function("extra", 0x1234, &[], ResultTy::I32);
    let symbols = list.get_native_symbols().clone();
    assert_eq!(symbols.len(), 1);
    assert_eq!(list.symbol_name(&symbols[0]).as_bytes_with_nul(), b"extra\0");
    assert_eq!(list.symbol_signature(&symbols[0]).as_bytes_with_nul(), b"i\0");

    let instance = start_instance(1024 * 64, ());
    assert_eq!(instance.data(), &());

    assert_eq!(guest_add(8, 8, 0), 16);
    assert_eq!(guest_add(8, 8, extra()), 116);
}

struct Counter {
    count: i32,
}

fn extra_with_side_effect(env: &mut ExecEnv<Counter>) -> i32 {
    let mut user_data = UserData::from_env(env);
    let count = user_data.data_mut();
    count.count += 1;
    count.count
}

#[test]
fn test_host_function_with_side_effect() {
    let mut list = HostFunctionList::new("env");
    list.register_host_function("extra", 0x1234, &[], ResultTy::I32);
    assert_eq!(list.get_native_symbols().len(), 1);

    let mut instance = start_instance(1024 * 64, Counter { count: 0 });
    assert_eq!(instance.data().count, 0);

    let host = extra_with_side_effect(instance.get_exec_env());
    assert_eq!(host, 1);
    assert_eq!(guest_add(8, 8, host), 17);
    assert_eq!(instance.data().count, 1);

    let host = extra_with_side_effect(instance.get_exec_env());
    assert_eq!(host, 2);
    assert_eq!(guest_add(8, 8, host), 18);
    assert_eq!(instance.data().count, 2);
}
