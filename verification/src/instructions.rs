//! The operations of the exchange, one module each: the accounts an
//! operation works on, and the handler that carries it out.

pub mod buy;
pub mod initialize;
pub mod pause;
pub mod sell;
pub mod update_price;
pub mod withdraw;
