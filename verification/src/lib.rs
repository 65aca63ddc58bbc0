//! The steps of a Bitcoin wallet that build a spend and set up the node it
//! talks to, with what each of them does stated as a contract and proved.
//!
//! A spend starts as a draft ([`spend::DefineSpend`]): recipients
//! ([`recipient`]), the wallet's coins in the order in which they are
//! offered ([`coin`]), a feerate, and an estimate of the value still to be
//! selected ([`estimate`]). A valid draft asks the wallet's daemon for a
//! transaction, which is handed on to the step that signs and saves it
//! ([`save`]). The installer's steps ([`installer`]) choose between a
//! `bitcoind` of the user's and one that the installer configures
//! ([`internal_bitcoind`]) and starts.
//!
//! No step reads a file, opens a socket or waits: what a step wants done it
//! returns as a value, and what came of it is handed back to it.

pub mod btc;
pub mod coin;
pub mod conf_ini;
pub mod decimal;
pub mod estimate;
pub mod form;
pub mod installer;
pub mod internal_bitcoind;
pub mod network;
pub mod recipient;
pub mod save;
pub mod spend;
pub mod text;
