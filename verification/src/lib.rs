//! Client-side logic for reading Odoo attendance, product and invoice data
//! over XML-RPC: request construction, reply interpretation, and the
//! reports built from the attendance of one day.

pub mod error;
pub mod rpc;
pub mod text;
pub mod calendar;
pub mod config;
pub mod master;
pub mod invoice;
pub mod odoo_const;
pub mod hr;
pub mod selection;
pub mod report;
pub mod bridge;
