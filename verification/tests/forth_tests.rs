use newton_emu::error::Error;
use newton_emu::openfirmware::forth::ForthInterpreter;

fn message(e: Error) -> String {
    match e {
        Error::Other(m) => m,
        _ => panic!("unexpected error kind"),
    }
}

#[test]
fn test_basic_arithmetic() {
    let mut forth = ForthInterpreter::new();

    forth.eval("2 3 +").unwrap();
    assert_eq!(forth.pop().unwrap(), 5);

    forth.eval("10 3 -").unwrap();
    assert_eq!(forth.pop().unwrap(), 7);

    forth.eval("4 5 *").unwrap();
    assert_eq!(forth.pop().unwrap(), 20);

    forth.eval("20 4 /").unwrap();
    assert_eq!(forth.pop().unwrap(), 5);
}

#[test]
fn test_stack_manipulation() {
    let mut forth = ForthInterpreter::new();

    forth.eval("1 2 3").unwrap();
    assert_eq!(forth.data_stack(), vec![1, 2, 3]);

    forth.eval("dup").unwrap();
    assert_eq!(forth.data_stack(), vec![1, 2, 3, 3]);

    forth.eval("drop").unwrap();
    assert_eq!(forth.data_stack(), vec![1, 2, 3]);

    forth.eval("swap").unwrap();
    assert_eq!(forth.data_stack(), vec![1, 3, 2]);
}

#[test]
fn test_hex_numbers() {
    let mut forth = ForthInterpreter::new();

    forth.eval("hex 10").unwrap();
    assert_eq!(forth.pop().unwrap(), 16);

    forth.eval("h# FF").unwrap();
    assert_eq!(forth.pop().unwrap(), 255);

    forth.eval("decimal 10").unwrap();
    assert_eq!(forth.pop().unwrap(), 10);
}

#[test]
fn test_constants() {
    let mut forth = ForthInterpreter::new();

    forth.create_constant("answer", 42);
    forth.eval("answer").unwrap();
    assert_eq!(forth.pop().unwrap(), 42);
}

#[test]
fn test_colon_definition() {
    let mut forth = ForthInterpreter::new();

    forth.eval(": double 2 * ;").unwrap();
    forth.eval("5 double").unwrap();
    assert_eq!(forth.pop().unwrap(), 10);
}

#[test]
fn forth_stack_words() {
    let mut forth = ForthInterpreter::new();
    forth.eval("1 2 3 rot").unwrap();
    assert_eq!(forth.data_stack(), vec![2, 3, 1]);
    forth.eval("over nip tuck").unwrap();
    assert_eq!(forth.data_stack(), vec![2, 3, 3, 3]);
    forth.eval("2drop 2dup").unwrap();
    assert_eq!(forth.data_stack(), vec![2, 3, 2, 3]);
    forth.eval("2swap 0 pick").unwrap();
    assert_eq!(forth.data_stack(), vec![2, 3, 2, 3, 3]);
    forth.eval("4 roll").unwrap();
    assert_eq!(forth.data_stack(), vec![3, 2, 3, 3, 2]);
    forth.eval(">r r@ r>").unwrap();
    assert_eq!(forth.data_stack(), vec![3, 2, 3, 3, 2, 2]);
}

#[test]
fn forth_arithmetic_edges() {
    let mut forth = ForthInterpreter::new();
    forth.eval("-7 2 / -7 2 mod 7 negate abs 1+ 1-").unwrap();
    assert_eq!(forth.data_stack(), vec![-3, -1, 7]);
    forth.eval("2147483647 1 +").unwrap();
    assert_eq!(forth.pop().unwrap(), i32::MIN);
    forth.eval("3 5 < 3 5 > 4 4 = 4 5 <> 0 0= -1 0< 6 3 and 6 3 or 6 3 xor 0 invert").unwrap();
    assert_eq!(forth.data_stack(), vec![-3, -1, 7, -1, 0, -1, -1, -1, -1, 2, 7, 5, -1]);
}

#[test]
fn forth_errors_carry_their_message() {
    let mut forth = ForthInterpreter::new();
    assert_eq!(message(forth.eval("+").unwrap_err()), "Stack underflow");
    assert_eq!(message(forth.eval("dup").unwrap_err()), "Stack empty");
    assert_eq!(message(forth.eval("1 0 /").unwrap_err()), "Division by zero");
    assert_eq!(message(forth.eval("frobnicate").unwrap_err()), "Undefined word: frobnicate");
    assert_eq!(message(forth.eval("r>").unwrap_err()), "Return stack underflow");
    assert_eq!(message(forth.eval("r@").unwrap_err()), "Return stack empty");
    assert_eq!(message(forth.eval(";").unwrap_err()), "Not compiling");
    assert_eq!(message(forth.eval(": ;").unwrap_err()), "Empty definition");
    assert_eq!(message(forth.eval("70000 @").unwrap_err()), "Memory access out of bounds");
    assert_eq!(message(forth.eval("h# zz").unwrap_err()), "Expected a hexadecimal number after h#");
    forth.eval(": loop-forever loop-forever ;").unwrap();
    assert_eq!(message(forth.eval("loop-forever").unwrap_err()), "Word nesting too deep");
}

#[test]
fn forth_error_stops_the_line() {
    let mut forth = ForthInterpreter::new();
    assert!(forth.eval("1 2 nosuchword 3").is_err());
    assert_eq!(forth.data_stack(), vec![1, 2]);
    forth.eval("9").unwrap();
    assert_eq!(forth.data_stack(), vec![1, 2, 9]);
}

#[test]
fn forth_memory_words() {
    let mut forth = ForthInterpreter::new();
    let addr = forth.create_variable("v");
    assert_eq!(addr, 0);
    assert_eq!(forth.here_ptr(), 4);
    forth.eval("305419896 v ! v @ v c@").unwrap();
    assert_eq!(forth.data_stack(), vec![305419896, 0x12]);
    assert_eq!(&forth.data_space()[0..4], &[0x12, 0x34, 0x56, 0x78]);
    forth.eval("here 65 c, here 2 allot here").unwrap();
    assert_eq!(forth.data_stack(), vec![305419896, 0x12, 4, 5, 7]);
    assert_eq!(forth.data_space()[4], 65);
    assert_eq!(message(forth.eval("70000 allot").unwrap_err()), "Data space exhausted");
}

#[test]
fn forth_output_words() {
    let mut forth = ForthInterpreter::new();
    forth.eval("42 . -7 . cr -1 u.").unwrap();
    assert_eq!(forth.take_output(), b"42 -7 \n4294967295 ".to_vec());
    assert!(forth.take_output().is_empty());
}

#[test]
fn forth_redefinition_replaces() {
    let mut forth = ForthInterpreter::new();
    forth.eval(": five 5 ; : five 6 ; five").unwrap();
    assert_eq!(forth.pop().unwrap(), 6);
    forth.eval("hex 0x10 h#20 ff decimal").unwrap();
    assert_eq!(forth.data_stack(), vec![16, 32, 255]);
}

fn of_forth() -> ForthInterpreter {
    let mut forth = ForthInterpreter::new();
    forth.register_of_words();
    forth
}

#[test]
fn of_property_encoding_words() {
    let mut forth = of_forth();
    forth.eval("305419896 encode-int").unwrap();
    assert_eq!(forth.data_stack(), vec![0, 4]);
    assert_eq!(&forth.data_space()[0..4], &[0x12, 0x34, 0x56, 0x78]);
    forth.eval("decode-int").unwrap();
    assert_eq!(forth.data_stack(), vec![4, 0, 305419896]);
    forth.eval("3drop 0 4 0 4 encode+").unwrap();
    assert_eq!(forth.data_stack(), vec![4, 8]);
    assert_eq!(&forth.data_space()[4..12], &[0x12, 0x34, 0x56, 0x78, 0x12, 0x34, 0x56, 0x78]);
    assert_eq!(forth.here_ptr(), 12);
}

#[test]
fn of_string_words() {
    let mut forth = of_forth();
    for (i, b) in b"/a/bc".iter().enumerate() {
        forth.push(*b as i32);
        forth.push(100 + i as i32);
        forth.eval("c!").unwrap();
    }
    forth.eval("100 5 /\"").unwrap();
    assert_eq!(forth.data_stack(), vec![101, 4, 100, 0]);
    forth.eval("2drop /\"").unwrap();
    assert_eq!(forth.data_stack(), vec![103, 2, 101, 1]);
    forth.eval("2drop 2drop 100 5 100 5 $= 100 2 102 2 $= 100 5 100 4 $=").unwrap();
    assert_eq!(forth.data_stack(), vec![-1, 0, 0]);
    forth.eval("100 5 0 adler32").unwrap();
    assert_eq!(forth.pop().unwrap(), 0x0423_0184);
}

#[test]
fn of_memory_block_words() {
    let mut forth = of_forth();
    forth.eval("200 4 7 fill 200 300 4 move 303 c@ 2 5 9 between 10 5 9 between 10 3 bounds").unwrap();
    assert_eq!(forth.data_stack(), vec![7, 0, 0, 13, 10]);
    assert_eq!(message(forth.eval("65535 4 0 fill").unwrap_err()), "Memory access out of bounds");
}

#[test]
fn of_execution_tokens_and_values() {
    let mut forth = of_forth();
    forth.eval(": seven 7 ; ['] seven execute").unwrap();
    assert_eq!(forth.pop().unwrap(), 7);
    forth.eval("['] seven catch ['] abort catch").unwrap();
    assert_eq!(forth.data_stack(), vec![7, 0, -3]);
    assert_eq!(message(forth.eval("['] nothing").unwrap_err()), "Word not found: nothing");
    forth.eval("42 value answer").unwrap();
    assert_eq!(message(forth.eval("1 to nothing").unwrap_err()), "Value not found: nothing");
    forth.eval("5 to answer answer @").unwrap();
    assert_eq!(forth.pop().unwrap(), 5);
}

#[test]
fn of_program_words() {
    let mut forth = of_forth();
    forth.eval("go").unwrap();
    assert_eq!(forth.program_entry(), None);
    forth.create_constant("load-base", 0x0040_0000);
    forth.eval("init-program go").unwrap();
    assert_eq!(forth.load_base(), Some(0x0040_0000));
    assert_eq!(forth.program_entry(), Some(0x0040_0000));
    forth.eval("47 0 c! 0 1 find-package 5 0 ?dup ?dup").unwrap();
    assert_eq!(forth.data_stack(), vec![1, 5, 0]);
    assert_eq!(message(forth.eval("abort").unwrap_err()), "ABORT");
}
