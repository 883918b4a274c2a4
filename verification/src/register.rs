//! Values of control and status registers, and what is written to them.

pub mod csr;
pub mod hstatus;
pub mod mcause;
pub mod menvcfg;
pub mod menvcfgh;
pub mod mireg;
pub mod misa;
pub mod mseccfg;
pub mod mstateen0;
pub mod mtopei;
pub mod mtvec;
pub mod pmpaddrx;
pub mod pmpcfgx;
pub mod sireg;
pub mod stopei;
