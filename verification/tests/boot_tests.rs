use x86_tables::boot::{x86_init, BootAction};

#[test]
fn plan_orders_the_hardware_calls() {
    // Instrument the plan: record each hardware-facing action as it would be
    // performed, and check the strict order with nothing skipped or repeated.
    let mut trace: Vec<&str> = Vec::new();
    for action in x86_init() {
        match action {
            BootAction::DisableInterrupts => trace.push("disable_interrupts"),
            BootAction::LoadGdt => trace.push("load_gdt"),
            BootAction::LoadIdt => trace.push("load_idt"),
            BootAction::EnableInterrupts => trace.push("enable_interrupts"),
        }
    }
    assert_eq!(
        trace,
        vec!["disable_interrupts", "load_gdt", "load_idt", "enable_interrupts"],
    );
}

#[test]
fn plan_is_exactly_the_four_steps() {
    let plan = x86_init();
    assert_eq!(plan.len(), 4);
    assert_eq!(plan[0], BootAction::DisableInterrupts);
    assert_eq!(plan[1], BootAction::LoadGdt);
    assert_eq!(plan[2], BootAction::LoadIdt);
    assert_eq!(plan[3], BootAction::EnableInterrupts);
}
