use vstd::prelude::*;

use crate::version::Error;

verus! {

/// The number of swapchain images to ask for: the requested number, capped by
/// the surface's maximum when the surface has one.
pub fn swapchain_image_count(num_images: u32, max_image_count: Option<u32>) -> (r: u32)
    ensures
        max_image_count is None ==> r == num_images,
        max_image_count matches Some(m) ==> r == if num_images <= m {
            num_images
        } else {
            m
        },
{
    let max = match max_image_count {
        Some(m) => m,
        None => num_images,
    };
    if num_images <= max {
        num_images
    } else {
        max
    }
}

/// The image format (with its color space) for a default swapchain: the first
/// one the surface supports.
pub fn select_surface_format<F: Copy>(formats: &Vec<F>) -> (r: Result<F, Error>)
    ensures
        formats@.len() == 0 ==> r == Err::<F, Error>(Error::NoSurfaceFormat),
        formats@.len() > 0 ==> r == Ok::<F, Error>(formats@[0]),
{
    if formats.len() == 0 {
        Err(Error::NoSurfaceFormat)
    } else {
        Ok(formats[0])
    }
}

} // verus!
