//! Verified decision logic for setting up a Vulkan instance, device and
//! swapchain: version negotiation, queue-family selection, extension sets and
//! swapchain parameters, all over plain values.

pub mod extensions;
pub mod layers;
pub mod queue;
pub mod swapchain;
pub mod version;

pub use extensions::{extensions_for_features, union_iextns, DeviceExtensions, DeviceFeatures, InstanceExtensions};
pub use layers::{contains_name, enabled_layers};
pub use queue::{make_queue_request, queue_requests, QueueCapability, QueueCreateRequest, QueueFamilyInfo, QueueSlot};
pub use swapchain::{select_surface_format, swapchain_image_count};
pub use version::{confirm_api_version, select_version, Error, Version};
