use ds_odrl_adapters::wasm_host::{step, HostAction, HostEvent, HostState};
use wasmi::{Engine, Instance, Linker, Memory, Module, Store, TypedFunc, Val};

/// A stand-in guest: a bump allocator, a `dealloc` that counts its calls,
/// and an `evaluate` that answers with the request itself -- or traps,
/// when `trap` is set.
fn guest(trap: bool) -> String {
    let evaluate_body = if trap {
        "unreachable".to_string()
    } else {
        "(i64.or (i64.shl (i64.extend_i32_u (local.get $ptr)) (i64.const 32)) (i64.extend_i32_u (local.get $len)))"
            .to_string()
    };
    format!(
        r#"(module
  (memory (export "memory") 1)
  (global $next (mut i32) (i32.const 1024))
  (global $frees (export "frees") (mut i32) (i32.const 0))
  (func (export "alloc") (param $len i32) (result i32)
    (local $p i32)
    (local.set $p (global.get $next))
    (global.set $next (i32.add (global.get $next) (local.get $len)))
    (local.get $p))
  (func (export "dealloc") (param i32 i32)
    (global.set $frees (i32.add (global.get $frees) (i32.const 1))))
  (func (export "evaluate") (param $ptr i32) (param $len i32) (result i64)
    {evaluate_body}))"#
    )
}

struct Guest {
    store: Store<()>,
    instance: Instance,
    memory: Memory,
    alloc: TypedFunc<i32, i32>,
    dealloc: TypedFunc<(i32, i32), ()>,
    evaluate: TypedFunc<(i32, i32), i64>,
}

fn instantiate(wat: &str) -> Guest {
    let mut config = wasmi::Config::default();
    config.consume_fuel(true);
    let engine = Engine::new(&config);
    let module = Module::new(&engine, wat.as_bytes()).unwrap();
    let mut store = Store::new(&engine, ());
    let instance = Linker::<()>::new(&engine).instantiate_and_start(&mut store, &module).unwrap();
    let memory = instance.get_memory(&store, "memory").unwrap();
    let alloc = instance.get_typed_func::<i32, i32>(&store, "alloc").unwrap();
    let dealloc = instance.get_typed_func::<(i32, i32), ()>(&store, "dealloc").unwrap();
    let evaluate = instance.get_typed_func::<(i32, i32), i64>(&store, "evaluate").unwrap();
    Guest { store, instance, memory, alloc, dealloc, evaluate }
}

fn round_trip(g: &mut Guest, request: &str) -> Result<String, String> {
    let bytes = request.as_bytes();
    let mut state = HostState::Start { len: bytes.len(), fuel: true };
    let mut event = HostEvent::Done;
    loop {
        let (next, action) = step(state, event);
        state = next;
        event = match action {
            HostAction::SetFuel(f) => match g.store.set_fuel(f) {
                Ok(()) => HostEvent::Done,
                Err(e) => HostEvent::Failed(e.to_string()),
            },
            HostAction::Alloc(len) => match g.alloc.call(&mut g.store, len) {
                Ok(p) => HostEvent::Returned(i64::from(p)),
                Err(e) => HostEvent::Failed(e.to_string()),
            },
            HostAction::Write(at) => match g.memory.write(&mut g.store, at, bytes) {
                Ok(()) => HostEvent::Done,
                Err(e) => HostEvent::Failed(e.to_string()),
            },
            HostAction::Evaluate(p, l) => match g.evaluate.call(&mut g.store, (p, l)) {
                Ok(v) => HostEvent::Returned(v),
                Err(e) => HostEvent::Failed(e.to_string()),
            },
            HostAction::Read(at, n) => {
                let mut out = vec![0u8; n];
                match g.memory.read(&g.store, at, &mut out) {
                    Ok(()) => HostEvent::ReadBytes(out),
                    Err(e) => HostEvent::Failed(e.to_string()),
                }
            }
            HostAction::Dealloc(p, l) => match g.dealloc.call(&mut g.store, (p, l)) {
                Ok(()) => HostEvent::Done,
                Err(e) => HostEvent::Failed(e.to_string()),
            },
            HostAction::Decode(out) => HostEvent::Decoded(String::from_utf8(out).map_err(|e| e.to_string())),
            HostAction::Finish(r) => return r,
        };
    }
}

fn frees(g: &Guest) -> Val {
    g.instance.get_global(&g.store, "frees").unwrap().get(&g.store)
}

#[test]
fn an_echo_guest_answers_with_the_request_and_both_buffers_are_freed() {
    let mut g = instantiate(&guest(false));
    assert_eq!(round_trip(&mut g, "{\"action\":\"use\"}"), Ok("{\"action\":\"use\"}".to_string()));
    assert!(matches!(frees(&g), Val::I32(2)));
    assert_eq!(round_trip(&mut g, "second"), Ok("second".to_string()));
    assert!(matches!(frees(&g), Val::I32(4)));
}

#[test]
fn a_trapping_guest_gets_its_request_buffer_back() {
    let mut g = instantiate(&guest(true));
    let err = round_trip(&mut g, "{}").unwrap_err();
    assert!(err.starts_with("evaluate trapped: "), "{err}");
    assert!(matches!(frees(&g), Val::I32(1)));
}
