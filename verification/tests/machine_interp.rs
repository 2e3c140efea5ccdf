//! Tests for the five-stage machine: instruction decode round trips, the
//! arithmetic unit, and the data-cell memory.
use klang::interp::Instruction::{ALUInstruction, JumpInstruction, MemoryInstruction};
use klang::interp::Reference::{AddressReference, StackReference};
use klang::interp_alu::{Printer, ALU};
use klang::interp_memory::Memory;
use klang::interp_registers::Registers;
use klang::interp_state::State;
use klang::machine::Machine;
use klang::program::{ActualProgram, Program};
use klang::lang::{Expr, Identifier, Stmt};
use klang::interp::{
    ALUInstructionKind, Address, Instruction, JumpInstructionKind, MemoryInstructionKind,
    Reference, Word,
};
use klang::compiler::compile;

fn all_alu_kinds() -> Vec<ALUInstructionKind> {
    vec![
        ALUInstructionKind::ADD,
        ALUInstructionKind::SUB,
        ALUInstructionKind::MUL,
        ALUInstructionKind::DIV,
        ALUInstructionKind::REM,
        ALUInstructionKind::SHL,
        ALUInstructionKind::SHR,
        ALUInstructionKind::EQ,
        ALUInstructionKind::LT,
        ALUInstructionKind::OR,
        ALUInstructionKind::AND,
        ALUInstructionKind::NOT,
        ALUInstructionKind::PRINT,
    ]
}

#[test]
fn test_alu() {
    for kind in all_alu_kinds() {
        let instruction = ALUInstruction {
            kind,
            res: Registers::alu_res(),
            lhs: Registers::alu_lhs(),
            rhs: Registers::alu_rhs(),
        };
        let buffer = instruction.create_buffer().to_vec();
        let program = ActualProgram::from_bytes(buffer);
        let raw_instruction = program.fetch_raw_instruction(Address::new(0));
        let state = Machine::<ActualProgram>::decode_instruction_open(&raw_instruction);
        let State::OperandsFetch(decoded) = state else {
            assert!(false);
            return;
        };
        assert_eq!(instruction, decoded);
    }
}

#[test]
fn test_jump() {
    for kind in [JumpInstructionKind::JUMP, JumpInstructionKind::CJUMP] {
        let instruction = JumpInstruction { kind, reg: Registers::jump(), addr: Address(12345) };
        let buffer = instruction.create_buffer().to_vec();
        let program = ActualProgram::from_bytes(buffer);
        let raw_instruction = program.fetch_raw_instruction(Address::new(0));
        let state = Machine::<ActualProgram>::decode_instruction_open(&raw_instruction);
        let State::OperandsFetch(decoded) = state else {
            assert!(false);
            return;
        };
        assert_eq!(instruction, decoded);
    }
}

#[test]
fn test_memory() {
    for kind in [
        MemoryInstructionKind::Store,
        MemoryInstructionKind::LoadStack,
        MemoryInstructionKind::LoadConst,
    ] {
        let instruction = MemoryInstruction {
            kind,
            reg: Registers::jump(),
            reference: if kind == MemoryInstructionKind::LoadConst {
                AddressReference(Address::new(43))
            } else {
                StackReference(44)
            },
        };
        let buffer = instruction.create_buffer().to_vec();
        let program = ActualProgram::from_bytes(buffer);
        let raw_instruction = program.fetch_raw_instruction(Address::new(0));
        let state = Machine::<ActualProgram>::decode_instruction_open(&raw_instruction);
        let State::OperandsFetch(decoded) = state else {
            assert!(false);
            return;
        };
        assert_eq!(instruction, decoded);
    }
}

#[derive(Default)]
struct EmptyPrinter;

impl Printer for EmptyPrinter {
    fn print(&mut self, _value: i32) {}
}

fn registers(lhs: i32, rhs: i32) -> Registers {
    let mut registers = Registers::default();
    registers.set(Registers::alu_lhs(), Word::new(lhs));
    registers.set(Registers::alu_rhs(), Word::new(rhs));
    registers
}

fn alu() -> ALU<EmptyPrinter> {
    ALU::new(EmptyPrinter)
}

#[test]
fn add_simple() {
    let mut registers = registers(1, 2);
    alu().evaluate(&mut registers, ALUInstructionKind::ADD);
    assert_eq!(registers.get(Registers::alu_res()), Word(3));
}

#[test]
fn add_overflow() {
    let mut registers = registers(i32::MAX, 1);
    alu().evaluate(&mut registers, ALUInstructionKind::ADD);
    assert_eq!(registers.get(Registers::alu_res()), Word(i32::MIN));
}

#[test]
fn sub_simple() {
    let mut registers = registers(5, 2);
    alu().evaluate(&mut registers, ALUInstructionKind::SUB);
    assert_eq!(registers.get(Registers::alu_res()), Word::new(3));
}

#[test]
fn sub_overflow() {
    let mut registers = registers(i32::MIN, 2);
    alu().evaluate(&mut registers, ALUInstructionKind::SUB);
    assert_eq!(registers.get(Registers::alu_res()), Word::new(i32::MAX - 1));
}

#[test]
fn mul_simple() {
    let mut registers = registers(5, 2);
    alu().evaluate(&mut registers, ALUInstructionKind::MUL);
    assert_eq!(registers.get(Registers::alu_res()), Word::new(10));
}

#[test]
fn div_simple() {
    let mut registers = registers(10, 2);
    alu().evaluate(&mut registers, ALUInstructionKind::DIV);
    assert_eq!(registers.get(Registers::alu_res()), Word::new(5));
}

#[test]
fn rem_simple() {
    let mut registers = registers(10, 3);
    alu().evaluate(&mut registers, ALUInstructionKind::REM);
    assert_eq!(registers.get(Registers::alu_res()), Word::new(1));
}

#[test]
fn shift_left_simple() {
    let mut registers = registers(1, 1);
    alu().evaluate(&mut registers, ALUInstructionKind::SHL);
    assert_eq!(registers.get(Registers::alu_res()), Word::new(2));
}

#[test]
fn shift_right_simple() {
    let mut registers = registers(2, 1);
    alu().evaluate(&mut registers, ALUInstructionKind::SHR);
    assert_eq!(registers.get(Registers::alu_res()), Word::new(1));
}

#[test]
fn eq_true() {
    let mut registers = registers(1, 1);
    alu().evaluate(&mut registers, ALUInstructionKind::EQ);
    assert_eq!(registers.get(Registers::alu_res()), Word::new(1));
}

#[test]
fn eq_false() {
    let mut registers = registers(1, 2);
    alu().evaluate(&mut registers, ALUInstructionKind::EQ);
    assert_eq!(registers.get(Registers::alu_res()), Word::new(0));
}

#[test]
fn lt_true() {
    let mut registers = registers(1, 2);
    alu().evaluate(&mut registers, ALUInstructionKind::LT);
    assert_eq!(registers.get(Registers::alu_res()), Word::new(1));
}

#[test]
fn lt_false() {
    let mut registers = registers(2, 1);
    alu().evaluate(&mut registers, ALUInstructionKind::LT);
    assert_eq!(registers.get(Registers::alu_res()), Word::new(0));
}

#[test]
fn or_simple() {
    let mut registers = registers(1, 0);
    alu().evaluate(&mut registers, ALUInstructionKind::OR);
    assert_eq!(registers.get(Registers::alu_res()), Word::new(1));
}

#[test]
fn and_simple() {
    let mut registers = registers(1, 1);
    alu().evaluate(&mut registers, ALUInstructionKind::AND);
    assert_eq!(registers.get(Registers::alu_res()), Word::new(1));
}

#[test]
fn not_simple() {
    let mut registers = registers(1, 0);
    alu().evaluate(&mut registers, ALUInstructionKind::NOT);
    assert_eq!(registers.get(Registers::alu_res()), Word::new(-2));
}

#[test]
fn print_simple() {
    let mut registers = registers(1, 0);
    alu().evaluate(&mut registers, ALUInstructionKind::PRINT);
    assert_eq!(registers.get(Registers::alu_res()), Word::new(1));
}

fn constants_program(constants: Vec<Word>) -> ActualProgram {
    let mut bytes = Vec::new();
    for w in constants.iter().rev() {
        bytes.extend_from_slice(&w.create_buffer());
    }
    ActualProgram::from_bytes(bytes)
}

#[test]
fn store_constant() {
    let result = Memory::default().evaluate(
        &mut Registers::default(),
        &constants_program(vec![Word::new(1), Word::new(2), Word::new(3)]),
        MemoryInstructionKind::Store,
        Reference::AddressReference(Address::new(1)),
    );
    assert_eq!(result, Some(State::Terminated));
}

#[test]
fn store_and_load() {
    let program = constants_program(vec![Word::new(1), Word::new(2), Word::new(3)]);
    let mut memory = Memory::default();
    let mut registers = Registers::default();
    registers.set(Registers::mem(), Word(42));
    let result = memory.evaluate(
        &mut registers,
        &program,
        MemoryInstructionKind::Store,
        Reference::StackReference(1),
    );
    assert_eq!(result, None);
    registers.set(Registers::mem(), Word(43));
    let result = memory.evaluate(
        &mut registers,
        &program,
        MemoryInstructionKind::LoadStack,
        Reference::StackReference(1),
    );
    assert_eq!(result, None);
    assert_eq!(registers.get(Registers::mem()), Word(42));
}

#[derive(Default)]
struct BufferPrinter {
    values: Vec<i32>,
}

impl Printer for BufferPrinter {
    fn print(&mut self, value: i32) {
        self.values.push(value);
    }
}

/// A small hand-built program run end to end through the compiler and the
/// machine: assign a constant, then print the variable.
#[test]
fn compile_and_run_print() {

    let body = vec![
        Stmt::Assign(Identifier(String::from("a")), Expr::Literal(42)),
        Stmt::Print(Expr::VarRef(Identifier(String::from("a")))),
    ];
    let compiled = compile(body);
    let buffer = compiled.crete_buffer();
    let program = ActualProgram::from_bytes(buffer);
    let mut machine: Machine<ActualProgram, BufferPrinter> = Machine::new(program);
    loop {
        if !machine.clock() {
            break;
        }
    }
    assert_eq!(machine.alu_printer().values, vec![42]);
}

/// Arithmetic through the whole pipeline: print 5 - 3 + 40.
#[test]
fn compile_and_run_arith() {

    let body = vec![Stmt::Print(Expr::Sum(Box::new((
        Expr::Sub(Box::new((Expr::Literal(5), Expr::Literal(3)))),
        Expr::Literal(40),
    ))))];
    let compiled = compile(body);
    let buffer = compiled.crete_buffer();
    let program = ActualProgram::from_bytes(buffer);
    let mut machine: Machine<ActualProgram, BufferPrinter> = Machine::new(program);
    loop {
        if !machine.clock() {
            break;
        }
    }
    assert_eq!(machine.alu_printer().values, vec![42]);
}

/// A word survives the little-endian buffer round trip.
#[test]
fn word_buffer_roundtrip() {
    for v in [0, 1, -1, 42, i32::MIN, i32::MAX, -256] {
        let w = Word::new(v);
        assert_eq!(Word::from_buffer(w.create_buffer()), w);
    }
}

/// An unknown instruction code terminates the machine at decode.
#[test]
fn decode_unknown_terminates() {
    let raw = klang::interp::RawInstruction::new([99, 0, 0, 0, 0, 0]);
    let state = Machine::<ActualProgram>::decode_instruction_open(&raw);
    assert_eq!(state, State::Terminated);
}

/// A conditional jump on a word that is neither 0 nor 1 is a defect and
/// terminates the machine.
#[test]
fn cjump_bad_flag_terminates() {
    let program = ActualProgram::from_bytes(vec![0; 6]);
    let mut machine: Machine<ActualProgram> = Machine::new(program);
    machine.registers.set(klang::interp::Register(3), Word::new(5));
    machine.state = State::InstructionExecution(Instruction::JumpInstruction {
        kind: JumpInstructionKind::CJUMP,
        reg: klang::interp::Register(3),
        addr: Address::new(0),
    });
    let running = machine.clock();
    assert!(!running);
    assert_eq!(machine.state, State::Terminated);
}
