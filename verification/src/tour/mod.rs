//! The decisions of the tour programs built on the hypervisor modules: a
//! single-guest hypervisor (`h_1_1`), a small monolithic kernel running one
//! user program (`m_1_2`), and a hypervisor that passes devices through to
//! its guest (`h_4_1`).

pub mod h_1_1;
pub mod h_4_1;
pub mod m_1_2;
