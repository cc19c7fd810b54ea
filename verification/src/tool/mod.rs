//! The tools the service offers: list and read domains, and create, update
//! and delete DNS records.
pub mod create_dns_record;
pub mod delete_dns_record;
pub mod dns;
pub mod get_domain;
pub mod list_domains;
pub mod update_dns_record;
