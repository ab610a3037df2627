//! Construction of the x86 protection-mode control structures: the Global
//! Descriptor Table (GDT), the Interrupt Descriptor Table (IDT), the
//! register-descriptor values their load instructions consume, and the
//! boot-time order in which they are installed. Every byte layout here is
//! dictated by the CPU; the contracts pin each bit position down.

pub mod access_byte;
pub mod boot;
pub mod flags_limit;
pub mod gdt;
pub mod idt;
pub mod log;
pub mod type_attributes;
pub mod vga;
