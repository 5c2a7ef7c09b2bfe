//! Product types of the change-detection animation.

use vstd::prelude::*;
use crate::util::str_eq;

verus! {

/// What each animation frame shows.
#[derive(Debug, Copy, Clone, PartialEq, Eq, Structural)]
pub enum ProductType {
    /// The frame with the differences added back onto the mean.
    STANDARD,
    /// The differences from the mean alone.
    DIFFERENTIAL,
    /// The differential frame above the standard frame.
    STACKED,
}

/// The product type a command-line name designates.
pub open spec fn product_type_for(s: Seq<char>) -> Option<ProductType> {
    if s == "std"@ {
        Some(ProductType::STANDARD)
    } else if s == "diff"@ {
        Some(ProductType::DIFFERENTIAL)
    } else if s == "stacked"@ {
        Some(ProductType::STACKED)
    } else {
        None
    }
}

impl ProductType {
    /// Recognises `std`, `diff` and `stacked`.
    pub fn _from_str(s: &str) -> (r: Option<ProductType>)
        ensures
            r == product_type_for(s@),
    {
        if str_eq(s, "std") {
            Some(ProductType::STANDARD)
        } else if str_eq(s, "diff") {
            Some(ProductType::DIFFERENTIAL)
        } else if str_eq(s, "stacked") {
            Some(ProductType::STACKED)
        } else {
            None
        }
    }

    /// Parses a product type, with an error message for unknown names.
    pub fn from_str(s: &str) -> (r: Result<ProductType, &'static str>)
        ensures
            match product_type_for(s@) {
                Some(t) => r == Ok::<ProductType, &'static str>(t),
                None => r matches Err(m) && m@ == "Invalid product type"@,
            },
    {
        match ProductType::_from_str(s) {
            None => Err("Invalid product type"),
            Some(t) => Ok(t),
        }
    }
}

/// Height of the animation's frames: a stacked product holds two images, one
/// above the other.
pub fn frame_height(product_type: ProductType, image_height: usize) -> (r: usize)
    requires
        product_type == ProductType::STACKED ==> image_height * 2 <= usize::MAX,
    ensures
        r == (if product_type == ProductType::STACKED {
            image_height * 2
        } else {
            image_height as int
        }),
{
    match product_type {
        ProductType::STACKED => image_height * 2,
        _ => image_height,
    }
}

} // verus!
