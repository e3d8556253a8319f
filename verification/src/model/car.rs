//! The catalogue of cars.

use crate::model::timestamp::Timestamp;
use vstd::prelude::*;

verus! {

/// One car of the catalogue.
#[derive(Clone, Debug)]
pub struct Car {
    pub ai_enabled: bool,
    pub allow_number_colors: bool,
    pub allow_number_font: bool,
    pub allow_sponsor1: bool,
    pub allow_sponsor2: bool,
    pub allow_wheel_color: bool,
    pub award_exempt: bool,
    pub car_dirpath: String,
    pub car_id: u32,
    pub car_name: String,
    pub car_name_abbreviated: String,
    pub car_types: Vec<CarType>,
    pub car_weight: u32,
    pub categories: Vec<String>,
    pub created: Timestamp,
    pub free_with_subscription: bool,
    pub has_headlights: bool,
    pub has_multiple_dry_tire_types: bool,
    pub hp: u32,
    pub max_power_adjust_pct: u32,
    pub max_weight_penalty_kg: u32,
    pub min_power_adjust_pct: i32,
    pub package_id: u32,
    pub patterns: u32,
    /// The price, a single-precision number, as its IEEE 754 bit pattern.
    /// Nothing here computes with prices; the bits are carried along.
    pub price_bits: u32,
    pub retired: bool,
    pub search_filters: String,
    pub sku: u32,
}

/// A class of cars that a car belongs to.
#[derive(Clone, Debug)]
pub struct CarType {
    pub car_type: String,
}

/// Where the pictures and texts that show a car are found. Paths are held
/// as the text in which they arrive.
#[derive(Clone, Debug)]
pub struct CarAssets {
    pub car_id: u32,
    pub detail_copy: String,
    pub detail_screen_shot_images: String,
    pub detail_techspecs_copy: Option<String>,
    pub folder: String,
    pub gallery_images: Option<String>,
    pub gallery_prefix: Option<String>,
    pub group_image: Option<String>,
    pub group_name: Option<String>,
    pub large_image: String,
    pub logo: Option<String>,
    pub small_image: Option<String>,
    pub sponsor_logo: Option<String>,
    pub template_path: Option<String>,
}

} // verus!
