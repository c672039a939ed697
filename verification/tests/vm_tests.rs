use roc_cpu::assembler::assemble;
use roc_cpu::types::RocCPUInstruction;
use roc_cpu::types::RocCPURegister;
use roc_cpu::vm::Effect;
use roc_cpu::vm::RocCPURunner;
use roc_cpu::vm::RuntimeFault;

fn run(source: &[u8]) -> Result<u8, RuntimeFault> {
    let program = assemble(source).unwrap();
    let mut runner = RocCPURunner::new(Some(&program));
    runner.execute()
}

#[test]
fn set_ret_exit_yields_the_byte() {
    assert_eq!(run(b"SETRET 0; EXIT;"), Ok(0));
    assert_eq!(run(b"SETRET 7; EXIT;"), Ok(7));
    assert_eq!(run(b"SETRET 255; EXIT;"), Ok(255));
}

#[test]
fn set_ret_exit_yields_every_sample_byte() {
    for v in [1u8, 42, 100, 128, 200, 254] {
        let source = format!("SETRET {}; EXIT;", v);
        assert_eq!(run(source.as_bytes()), Ok(v));
    }
}

#[test]
fn put_add_mov_scenario_yields_twelve() {
    assert_eq!(
        run(b"PUT $ax,5; PUT $bx,7; ADD $ax,$bx; MOV $ret,$ax; EXIT;"),
        Ok(12)
    );
}

#[test]
fn add_wraps_modulo_256() {
    assert_eq!(
        run(b"PUT $ax,255; PUT $bx,2; ADD $ax,$bx; MOV $ret,$ax; EXIT;"),
        Ok(1)
    );
    assert_eq!(
        run(b"PUT $ax,254; PUT $bx,2; ADD $ax,$bx; MOV $ret,$ax; EXIT;"),
        Ok(0)
    );
}

#[test]
fn add_sets_zero_flag_only_on_wrapped_zero() {
    // 254 + 2 wraps to 0: the conditional jump is taken.
    assert_eq!(
        run(b"PUT $ax,254; PUT $bx,2; ADD $ax,$bx; JZ @z; SETRET 1; EXIT; @z SETRET 9; EXIT;"),
        Ok(9)
    );
    // 255 + 2 wraps to 1: the conditional jump falls through.
    assert_eq!(
        run(b"PUT $ax,255; PUT $bx,2; ADD $ax,$bx; JZ @z; SETRET 1; EXIT; @z SETRET 9; EXIT;"),
        Ok(1)
    );
}

#[test]
fn sub_wraps_below_zero() {
    assert_eq!(
        run(b"PUT $ax,1; PUT $bx,2; SUB $ax,$bx; MOV $ret,$ax; EXIT;"),
        Ok(255)
    );
}

#[test]
fn cmp_sets_zero_flag_on_equality_only() {
    assert_eq!(
        run(b"PUT $ax,5; PUT $bx,5; CMP $ax,$bx; JZ @e; SETRET 1; EXIT; @e SETRET 2; EXIT;"),
        Ok(2)
    );
    assert_eq!(
        run(b"PUT $ax,5; PUT $bx,6; CMP $ax,$bx; JZ @e; SETRET 1; EXIT; @e SETRET 2; EXIT;"),
        Ok(1)
    );
    assert_eq!(
        run(b"PUT $ax,6; PUT $bx,5; CMP $ax,$bx; JZ @e; SETRET 1; EXIT; @e SETRET 2; EXIT;"),
        Ok(1)
    );
}

#[test]
fn push_pop_round_trip_restores_register() {
    assert_eq!(
        run(b"PUT $ax,42; PUSH $ax; PUT $ax,0; POP $ax; MOV $ret,$ax; EXIT;"),
        Ok(42)
    );
}

#[test]
fn call_returns_to_next_instruction() {
    // Multiply 5 by 7 through repeated addition in a called routine.
    let source = b"
        PUT $f1, 5;
        PUT $f2, 7;
        CALL @multiply;
        MOV $ret, $fret;
        EXIT;

        @multiply
            PUSH $f1;
            PUSH $f2;
            PUSH $ax;
            PUSH $bx;
            PUSH $cx;
            PUT $ax, 1;
            MOV $bx, $f1;
            MOV $cx, $f2;
            PUT $dx, 0;
            PUT $fret, 0;
        @multiplyloop
            CMP $bx, $dx;
            JZ @multiplyfinish;
            ADD $fret, $cx;
            SUB $bx, $ax;
            JUMP @multiplyloop;
        @multiplyfinish
            POP $cx;
            POP $bx;
            POP $ax;
            POP $f2;
            POP $f1;
            RETURN;
    ";
    assert_eq!(run(source), Ok(35));
}

#[test]
fn stack_holds_exactly_255_bytes() {
    let mut source = String::new();
    for _ in 0..255 {
        source.push_str("PUSH $ax; ");
    }
    source.push_str("EXIT;");
    assert_eq!(run(source.as_bytes()), Ok(0));

    let mut overflowing = String::new();
    for _ in 0..256 {
        overflowing.push_str("PUSH $ax; ");
    }
    overflowing.push_str("EXIT;");
    assert_eq!(
        run(overflowing.as_bytes()),
        Err(RuntimeFault::StackOverflow)
    );
}

#[test]
fn pop_from_empty_stack_is_fatal() {
    assert_eq!(run(b"POP $ax;"), Err(RuntimeFault::StackUnderflow));
}

#[test]
fn return_with_empty_stack_is_fatal() {
    assert_eq!(run(b"RETURN;"), Err(RuntimeFault::StackUnderflow));
}

#[test]
fn running_off_the_end_forces_255() {
    assert_eq!(run(b"NOP;"), Ok(255));
    assert_eq!(run(b"PUT $ax,3;"), Ok(255));
}

#[test]
fn no_program_executes_to_zero() {
    let mut runner = RocCPURunner::new(None);
    assert_eq!(runner.execute(), Ok(0));
}

#[test]
fn unload_program_drops_the_program() {
    let program = assemble(b"SETRET 5; EXIT;").unwrap();
    let mut runner = RocCPURunner::new(Some(&program));
    assert_eq!(runner.execute(), Ok(5));
    runner.unload_program();
    assert_eq!(runner.execute(), Ok(0));
}

#[test]
fn registers_persist_across_runs() {
    // The register file is deliberately not cleared between runs.
    let first = assemble(b"SETRET 9; EXIT;").unwrap();
    let second = assemble(b"EXIT;").unwrap();
    let mut runner = RocCPURunner::new(Some(&first));
    assert_eq!(runner.execute(), Ok(9));
    runner.load_program(&second);
    assert_eq!(runner.execute(), Ok(9));
}

#[test]
fn stack_is_cleared_between_runs() {
    let first = assemble(b"PUSH $ax; EXIT;").unwrap();
    let second = assemble(b"POP $ax; EXIT;").unwrap();
    let mut runner = RocCPURunner::new(Some(&first));
    assert_eq!(runner.execute(), Ok(0));
    runner.load_program(&second);
    assert_eq!(runner.execute(), Err(RuntimeFault::StackUnderflow));
}

#[test]
fn render_records_the_framebuffer_and_wait_the_pause() {
    let program = assemble(b"PUTMEM 0x80,0x00,0xFF; RENDER; WAIT 3; EXIT;").unwrap();
    let mut runner = RocCPURunner::new(Some(&program));
    assert_eq!(runner.execute(), Ok(0));
    let effects = runner.effects();
    assert_eq!(effects.len(), 2);
    match &effects[0] {
        Effect::Frame(bytes) => {
            assert_eq!(bytes.len(), 3 * 40 * 32);
            assert_eq!(bytes[0], 0xFF);
            assert_eq!(bytes[1], 0);
        }
        Effect::Pause(_) => panic!("first effect should be the rendered frame"),
    }
    match &effects[1] {
        Effect::Pause(secs) => assert_eq!(*secs, 3),
        Effect::Frame(_) => panic!("second effect should be the pause"),
    }
}

#[test]
fn jump_skips_render_and_wait() {
    let source = b"
        PUTMEM 0x87, 0x4D, 0xFF;
        JUMP @lbl;
        RENDER;
        WAIT 3;
        @lbl
        EXIT;
    ";
    let program = assemble(source).unwrap();
    let mut runner = RocCPURunner::new(Some(&program));
    assert_eq!(runner.execute(), Ok(0));
    assert_eq!(runner.effects().len(), 0);
}

#[test]
fn effects_are_cleared_between_runs() {
    let program = assemble(b"RENDER; EXIT;").unwrap();
    let mut runner = RocCPURunner::new(Some(&program));
    assert_eq!(runner.execute(), Ok(0));
    assert_eq!(runner.effects().len(), 1);
    let silent = assemble(b"EXIT;").unwrap();
    runner.load_program(&silent);
    assert_eq!(runner.execute(), Ok(0));
    assert_eq!(runner.effects().len(), 0);
}

#[test]
fn reserved_opcodes_execute_as_no_ops() {
    let program = vec![
        RocCPUInstruction::AddI(RocCPURegister::GeneralPurposeA, 3),
        RocCPUInstruction::Mul(
            RocCPURegister::GeneralPurposeA,
            RocCPURegister::GeneralPurposeB,
        ),
        RocCPUInstruction::SetRet(6),
        RocCPUInstruction::Exit,
    ];
    let mut runner = RocCPURunner::new(Some(&program));
    assert_eq!(runner.execute(), Ok(6));
}
