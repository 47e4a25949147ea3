use guest_abi::godot_string::GodotString;
use guest_abi::godot_string::NO_REFERENCE;
use guest_abi::syscall::Engine;
use guest_abi::syscall::HostCall;
use guest_abi::syscall::SYSCALL_IS_EDITOR;
use guest_abi::syscall::SYSCALL_PRINT;
use guest_abi::syscall::SYSCALL_THROW;
use guest_abi::syscall::SYSCALL_VCREATE;
use guest_abi::syscall::print;
use guest_abi::syscall::print1;
use guest_abi::syscall::string_create_call;
use guest_abi::syscall::test_print;
use guest_abi::variant::Variant;
use guest_abi::wire::VARIANT_SIZE;

#[test]
fn call_numbers_match_the_abi_table() {
    assert_eq!(SYSCALL_PRINT, 500);
    assert_eq!(SYSCALL_THROW, 511);
    assert_eq!(SYSCALL_IS_EDITOR, 512);
    assert_eq!(SYSCALL_VCREATE, 517);
}

#[test]
fn print_builds_contiguous_buffer_with_fixed_stride() {
    let items = [
        Variant::new_integer(1),
        Variant::new_bool(true),
        Variant::new_nil(),
        Variant::new_float(1.0f64.to_bits()),
    ];
    let pc = print(&items);
    assert_eq!(pc.count, 4);
    assert_eq!(pc.buffer.len(), 4 * VARIANT_SIZE);
    for (i, v) in items.iter().enumerate() {
        let seg = &pc.buffer[i * VARIANT_SIZE..(i + 1) * VARIANT_SIZE];
        assert_eq!(seg, v.to_bytes().as_slice());
    }
}

#[test]
fn print_of_nothing_is_an_empty_buffer() {
    let pc = print(&[]);
    assert_eq!(pc.count, 0);
    assert!(pc.buffer.is_empty());
}

#[test]
fn print1_is_a_count_one_print() {
    let v = Variant::new_integer(-5);
    let pc = print1(&v);
    assert_eq!(pc.count, 1);
    assert_eq!(pc.buffer, v.to_bytes());
}

#[test]
fn print_regs_carry_number_address_and_count() {
    let pc = print(&[Variant::new_nil()]);
    let regs = pc.regs(0x8000);
    assert_eq!(
        regs,
        HostCall { number: 500, a0: 0x8000, a1: 1, a2: 0 }
    );
}

#[test]
fn test_print_encodes_the_three_element_scenario() {
    // the string variant as the host would have written it after creation
    let mut host_image = vec![4u8, 0, 0, 0, 0, 0, 0, 0];
    host_image.extend_from_slice(&0x1111u64.to_le_bytes());
    host_image.extend_from_slice(&0x2222u64.to_le_bytes());
    let hello = Variant::from_bytes(&host_image).unwrap();

    let pc = test_print(&hello);
    assert_eq!(pc.count, 3);
    assert_eq!(pc.buffer.len(), 3 * VARIANT_SIZE);
    let first = &pc.buffer[0..VARIANT_SIZE];
    assert_eq!(first, Variant::new_integer(42).to_bytes().as_slice());
    let second = &pc.buffer[VARIANT_SIZE..2 * VARIANT_SIZE];
    assert_eq!(
        second,
        Variant::new_float(3.14f64.to_bits()).to_bytes().as_slice()
    );
    let third = &pc.buffer[2 * VARIANT_SIZE..3 * VARIANT_SIZE];
    assert_eq!(third, host_image.as_slice());
    assert_eq!(pc.regs(0x9000).a1, 3);
}

#[test]
fn string_creation_regs_carry_both_pointers_and_the_tag() {
    let regs = string_create_call(0x4000, 0x5000);
    assert_eq!(
        regs,
        HostCall { number: 517, a0: 0x4000, a1: 4, a2: 0x5000 }
    );
}

#[test]
fn editor_query_has_no_arguments_and_reads_a0() {
    let regs = Engine::is_editor_hint_call();
    assert_eq!(regs, HostCall { number: 512, a0: 0, a1: 0, a2: 0 });
    assert!(!Engine::is_editor_hint_result(0));
    assert!(Engine::is_editor_hint_result(1));
    assert!(Engine::is_editor_hint_result(u64::MAX));
}

#[test]
fn godot_string_handles() {
    assert_eq!(GodotString::new().reference, NO_REFERENCE);
    assert_eq!(GodotString::new().reference, i32::MIN);
    assert_eq!(GodotString::from_ref(77).reference, 77);
    assert_eq!(GodotString::from_ref(-3).reference, -3);
}
