//! A model of a physical cloakroom: a fixed bank of numbered lockers, each
//! bounded in capacity, into which a customer deposits categorized items,
//! receives a key on closing the locker, and later redeems the key to
//! retrieve the contents.

pub mod cloakroom;
pub mod decimal;
pub mod items;
