//! Decision logic of the platform operator console.
use vstd::prelude::*;

pub mod text;
pub mod json;
pub mod blocks;
pub mod hero;
pub mod sections;
pub mod landing;
pub mod campaigns;
pub mod ids;
pub mod select;
pub mod timestamps;
pub mod audit;
pub mod products;
pub mod product_page;
pub mod menus;
pub mod tenant_map;
pub mod network_wizard;
pub mod network_detail;
pub mod network_pages;
pub mod system_status;
pub mod access;
pub mod ambassadors;
pub mod notice;

verus! {
} // verus!
