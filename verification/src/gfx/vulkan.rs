//! What the library takes from the Vulkan bindings: version numbers, the name
//! of the debug extension, the severity scale of debug messages, and the words
//! for an error code.

use vstd::prelude::*;
use vulkanalia::vk;

verus! {

/// A version packed into one number as the graphics API wants it: the major
/// part from bit 22 up, the minor part in the ten bits below it, the patch in
/// the lowest twelve. Parts that do not fit spill into their neighbours, and
/// what leaves the 32 bits is lost.
pub open spec fn version_number(major: u32, minor: u32, patch: u32) -> u32 {
    (major << 22) | (minor << 12) | patch
}

/// `vulkanalia::vk::make_version`: the three parts shifted into place and
/// joined by bitwise or, as `version_number` says.
#[verifier::external_body]
pub(crate) fn make_version(major: u32, minor: u32, patch: u32) -> (version: u32)
    ensures
        version == version_number(major, minor, patch),
{
    vk::make_version(major, minor, patch)
}

/// The name of the instance extension through which debug messages arrive.
pub open spec fn debug_utils_name() -> Seq<char> {
    "VK_EXT_debug_utils"@
}

/// The name in `vulkanalia::vk::EXT_DEBUG_UTILS_EXTENSION`, read with
/// `StringArray::to_string_lossy`: the text `VK_EXT_debug_utils`.
#[verifier::external_body]
pub(crate) fn debug_utils_extension() -> (name: String)
    ensures
        name@ == debug_utils_name(),
{
    vk::EXT_DEBUG_UTILS_EXTENSION.name.to_string_lossy().into_owned()
}

/// The severity from which a debug message counts as a warning.
pub open spec fn warning_floor() -> u32 {
    0x100
}

/// The severity from which a debug message counts as an error.
pub open spec fn error_floor() -> u32 {
    0x1000
}

/// `bits()` of `vulkanalia::vk::DebugUtilsMessageSeverityFlagsEXT::WARNING` and
/// of `::ERROR`: bit 8 and bit 12.
#[verifier::external_body]
pub(crate) fn severity_floors() -> (floors: (u32, u32))
    ensures
        floors.0 == warning_floor(),
        floors.1 == error_floor(),
{
    (
        vk::DebugUtilsMessageSeverityFlagsEXT::WARNING.bits(),
        vk::DebugUtilsMessageSeverityFlagsEXT::ERROR.bits(),
    )
}

/// The sentence with which the bindings describe an error code.
pub uninterp spec fn error_code_text(code: i32) -> Seq<char>;

/// The `Display` text of `vulkanalia::vk::ErrorCode::from_raw(code)`: a fixed
/// sentence for each code the bindings know, and a sentence that quotes the
/// number for any other.
#[verifier::external_body]
pub(crate) fn error_text(code: i32) -> (text: String)
    ensures
        text@ == error_code_text(code),
{
    vk::ErrorCode::from_raw(code).to_string()
}

} // verus!
