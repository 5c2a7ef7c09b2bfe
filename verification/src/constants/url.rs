//! Raw image API endpoints.

use vstd::prelude::*;

verus! {

pub const MSL_RAW_WEBSERVICE_URL: &'static str = "https://mars.nasa.gov/api/v1/raw_image_items/";

pub const MSL_LATEST_WEBSERVICE_URL: &'static str = "https://mars.nasa.gov/api/v1/raw_image_items/msl/latest/";

pub const M20_RAW_WEBSERVICE_URL: &'static str = "https://mars.nasa.gov/rss/api/";

pub const M20_LATEST_WEBSERVICE_URL: &'static str = "https://mars.nasa.gov/rss/api/?feed=raw_images&category=mars2020,ingenuity&feedtype=json&ver=1.2&latest=true";

pub const NSYT_RAW_WEBSERVICE_URL: &'static str = "https://mars.nasa.gov/api/v1/raw_image_items/";

pub const NSYT_LATEST_WEBSERVICE_URL: &'static str = "https://mars.nasa.gov/api/v1/raw_image_items/insight/latest/";

} // verus!
