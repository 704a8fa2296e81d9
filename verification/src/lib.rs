//! The rules of a penetration-testing platform: engagements and their
//! workflow, scan targets, subdomain and port scans and the changes they
//! report, the findings scans file, the dashboard's figures, and access.

pub mod access;
pub mod alerts;
pub mod app_info;
pub mod catalog;
pub mod clock;
pub mod contact;
pub mod dashboard;
pub mod engagement;
pub mod free_scan;
pub mod hostname;
pub mod ids;
pub mod ip;
pub mod jobs;
pub mod plans;
pub mod reports;
pub mod routes;
pub mod scan_diff;
pub mod scan_target;
pub mod schema;
pub mod text;
