pub mod blink;
pub mod digits;
pub mod ranging;
pub mod tm1638;
