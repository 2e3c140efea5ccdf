//! Whole-datapath runs: hand-assembled programs through the emulator, the
//! compiler pipeline down to bytes, and the reset/replay behaviour.
use klang::ast_transform::AstTransformer;
use klang::binary::SMTransformer;
use klang::emulator::Emulator;
use klang::fsm::FSMState;
use klang::instructions::{transform_to_bytes, IType, Instr, JType, RType};
use klang::program_parser::ProgramParser;
use klang::stack_machine::{Condition, Label, StackCommand};
use klang::ast::{Expr as KExpr, Stmt as KStmt};
use klang::ast::Ident;

fn emit(code: &mut Vec<u8>, instr: &Instr) {
    code.extend_from_slice(&transform_to_bytes(instr).to_be_bytes());
}

fn run(emulator: &mut Emulator) {
    loop {
        if !emulator.clock() {
            break;
        }
    }
}

/// Load 5 and 3, subtract, store the difference at offset 100; the data
/// memory ends with the word 2 there.
#[test]
fn store_difference() {
    let mut memory = Vec::new();
    memory.extend_from_slice(&5i32.to_be_bytes());
    memory.extend_from_slice(&3i32.to_be_bytes());

    let mut code = Vec::new();
    emit(&mut code, &Instr::I(IType::Lw { rs: 0, rt: 1, imm: 0 }));
    emit(&mut code, &Instr::I(IType::Lw { rs: 0, rt: 2, imm: 4 }));
    emit(&mut code, &Instr::R(RType { rs: 1, rt: 2, rd: 3, funct: 34 }));
    emit(&mut code, &Instr::I(IType::Sw { rs: 0, rt: 3, imm: 100 }));

    let mut emulator = Emulator::new(code, memory);
    run(&mut emulator);
    assert_eq!(2, emulator.memory.get_word_from_position(100));
    assert_eq!(2, emulator.registers.get_value(3) - 0);
}

/// A countdown loop with a backward jump prints each iteration: 3, 2, 1,
/// and stops when the counter register reaches zero.
#[test]
fn countdown_prints_sequence() {
    let mut memory = Vec::new();
    memory.extend_from_slice(&3i32.to_be_bytes());
    memory.extend_from_slice(&1i32.to_be_bytes());

    let mut code = Vec::new();
    emit(&mut code, &Instr::I(IType::Lw { rs: 0, rt: 1, imm: 0 }));
    emit(&mut code, &Instr::I(IType::Lw { rs: 0, rt: 2, imm: 4 }));
    // Loop head, byte offset 8: print r1, decrement, exit when zero.
    emit(&mut code, &Instr::R(RType { rs: 1, rt: 0, rd: 0, funct: 0 }));
    emit(&mut code, &Instr::R(RType { rs: 1, rt: 2, rd: 1, funct: 34 }));
    emit(&mut code, &Instr::I(IType::Bne { rs: 1, rt: 0, imm: 1 }));
    emit(&mut code, &Instr::J(JType::Jmp { address: 2 }));

    let mut emulator = Emulator::new(code, memory);
    run(&mut emulator);
    assert_eq!(vec![3, 2, 1], emulator.output);
}

/// Resetting twice leaves the same machine as resetting once, and a reset
/// machine replays the identical run bit for bit.
#[test]
fn reset_is_idempotent_and_replays() {
    let mut memory = Vec::new();
    memory.extend_from_slice(&5i32.to_be_bytes());
    memory.extend_from_slice(&3i32.to_be_bytes());

    let mut code = Vec::new();
    emit(&mut code, &Instr::I(IType::Lw { rs: 0, rt: 1, imm: 0 }));
    emit(&mut code, &Instr::I(IType::Lw { rs: 0, rt: 2, imm: 4 }));
    emit(&mut code, &Instr::R(RType { rs: 1, rt: 2, rd: 3, funct: 34 }));
    emit(&mut code, &Instr::I(IType::Sw { rs: 0, rt: 3, imm: 100 }));

    let mut emulator = Emulator::new(code, memory);
    run(&mut emulator);
    let regs_first: Vec<i32> = (0..32).map(|i| emulator.registers.get_value(i)).collect();
    let mem_first = emulator.memory.get_word_from_position(100);

    emulator.reset();
    assert_eq!(0, emulator.pc);
    assert_eq!(FSMState::Fetch, emulator.fsm.current_state);
    assert_eq!(0, emulator.memory.get_word_from_position(100));
    let regs_once: Vec<i32> = (0..32).map(|i| emulator.registers.get_value(i)).collect();
    emulator.reset();
    let regs_twice: Vec<i32> = (0..32).map(|i| emulator.registers.get_value(i)).collect();
    assert_eq!(regs_once, regs_twice);
    assert_eq!(0, emulator.pc);
    assert_eq!(0, emulator.memory.get_word_from_position(100));

    run(&mut emulator);
    let regs_second: Vec<i32> = (0..32).map(|i| emulator.registers.get_value(i)).collect();
    assert_eq!(regs_first, regs_second);
    assert_eq!(mem_first, emulator.memory.get_word_from_position(100));
}

/// Bit-exact encodings of the three instruction formats.
#[test]
fn encodings_are_bit_exact() {
    assert_eq!(
        0b000000_00001_00010_00011_00000_100010,
        transform_to_bytes(&Instr::R(RType { rs: 1, rt: 2, rd: 3, funct: 34 })),
    );
    assert_eq!(
        (2u32 << 26) | 1234,
        transform_to_bytes(&Instr::J(JType::Jmp { address: 1234 })),
    );
    assert_eq!(
        (34u32 << 26) | (7 << 21) | (9 << 16) | 516,
        transform_to_bytes(&Instr::I(IType::Lw { rs: 7, rt: 9, imm: 516 })),
    );
}

/// Decoding inverts assembling for a well-formed instruction stream.
#[test]
fn parse_inverts_assembly() {
    let instrs = vec![
        Instr::I(IType::Lw { rs: 0, rt: 1, imm: 0 }),
        Instr::R(RType { rs: 1, rt: 2, rd: 3, funct: 34 }),
        Instr::I(IType::Beq { rs: 1, rt: 0, imm: 1 }),
        Instr::I(IType::Bne { rs: 2, rt: 3, imm: 7 }),
        Instr::I(IType::Sw { rs: 0, rt: 3, imm: 100 }),
        Instr::J(JType::Jmp { address: 2 }),
    ];
    let mut bytes = Vec::new();
    for i in &instrs {
        emit(&mut bytes, i);
    }
    let parsed = ProgramParser::parse(&bytes).unwrap();
    assert_eq!(instrs, parsed);

    // An unimplemented opcode refuses the stream.
    let bad = vec![0xffu8, 0, 0, 0];
    assert!(ProgramParser::parse(&bad).is_none());
    // A partial word refuses the stream.
    assert!(ProgramParser::parse(&bytes[0..6]).is_none());
    // An empty stream refuses too.
    assert!(ProgramParser::parse(&[]).is_none());
}

/// The whole source pipeline: syntax tree to stack commands to datapath
/// bytes, run on the emulator; `print 42` emits 42.
#[test]
fn compile_print_and_run() {

    let program: Vec<KStmt> = vec![KStmt::Print(KExpr::IntLiteral(42))];
    let mut ast_transformer = AstTransformer::new();
    let commands = ast_transformer.transform_ast_to_sm(program);
    let mut transformer = SMTransformer::new();
    let (memory, code) = transformer.transform_program(&commands);
    let mut emulator = Emulator::new(code, memory);
    run(&mut emulator);
    assert_eq!(vec![42], emulator.output);

    // And an assignment read back: x = 7; print x + 1.
    let program: Vec<KStmt> = vec![
        KStmt::VarAssign(Ident(String::from("x")), KExpr::IntLiteral(7)),
        KStmt::Print(KExpr::InfixOperation(
            Box::new(KExpr::Var(Ident(String::from("x")))),
            klang::ast::Ops::Add,
            Box::new(KExpr::IntLiteral(1)),
        )),
    ];
    let mut ast_transformer = AstTransformer::new();
    let commands = ast_transformer.transform_ast_to_sm(program);
    let mut transformer = SMTransformer::new();
    let (memory, code) = transformer.transform_program(&commands);
    let mut emulator = Emulator::new(code, memory);
    run(&mut emulator);
    assert_eq!(vec![8], emulator.output);
}

/// The stack-machine shape of a while loop: jump to the condition, loop
/// body behind a label, conditional jump back to the body.
#[test]
fn while_loop_command_shape() {

    let x = || Ident(String::from("x"));
    let program: Vec<KStmt> = vec![
        KStmt::While(KExpr::Var(x()), Box::new(vec![KStmt::Print(KExpr::Var(x()))])),
    ];
    let mut ast_transformer = AstTransformer::new();
    let commands = ast_transformer.transform_ast_to_sm(program);
    assert_eq!(
        commands,
        vec![
            StackCommand::Jmp(Label { id: 2 }),
            StackCommand::Label(Label { id: 1 }),
            StackCommand::Load(x()),
            StackCommand::Print,
            StackCommand::Label(Label { id: 2 }),
            StackCommand::Load(x()),
            StackCommand::ConditionalJump(Condition::NotEqualsZero, Label { id: 1 }),
        ],
    );
}

/// The ALU wraps on overflow and flags zero exactly when the result is
/// zero, for every function code.
#[test]
fn alu_zero_flag_all_codes() {
    let mut alu = klang::alu::ALU::new();
    for funct in [32u8, 34, 36, 37, 39, 42] {
        let r = alu.perform_operation(13, 13, funct);
        assert_eq!(r == 0, alu.get_zero_flag());
        let r = alu.perform_operation(-13, 13, funct);
        assert_eq!(r == 0, alu.get_zero_flag());
    }
}

/// A jump carries a full 26-bit address field: with bit 25 set, the target
/// is the field shifted left two, far past a short stream, so the machine
/// terminates there rather than wrapping into low memory.
#[test]
fn jump_uses_full_26_bit_field() {
    let mut code = Vec::new();
    emit(&mut code, &Instr::J(JType::Jmp { address: 0x2000000 }));

    let mut emulator = Emulator::new(code, Vec::new());
    run(&mut emulator);
    assert_eq!(0x8000000, emulator.pc);
}
