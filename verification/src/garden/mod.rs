pub mod garden_types;
pub mod gardener;
