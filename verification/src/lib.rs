//! The decisions of a Prometheus exporter for MikroTik routers.
//!
//! A scrape connects to the configured devices ([`scrape`]), learns who the clients of the network
//! are ([`leases`]), and then asks every device for its wireless clients ([`capsman`], [`wifi`]),
//! its sensors ([`health`]) and its powered ports ([`ethernet`]). What the devices answer
//! ([`sentence`]) becomes metrics ([`metric`]), which are sorted into families ([`collection`]) and
//! written as text ([`exposition`], [`response`]). Talking to devices and to clients, and counting
//! in floats, is left to the program around this library.

pub mod capsman;
pub mod collection;
pub mod ethernet;
pub mod exposition;
pub mod health;
pub mod inventory;
pub mod key;
pub mod leases;
pub mod metric;
pub mod registration;
pub mod response;
pub mod scrape;
pub mod sentence;
pub mod table;
pub mod text;
pub mod wifi;
