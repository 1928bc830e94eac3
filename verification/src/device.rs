//! Device-selection decisions: which queue families serve graphics and
//! presentation, whether a device offers the required extensions and layers,
//! and which of the enumerated physical devices is used.
//!
//! The functions work on plain values copied out of the device queries; the
//! instance and device handles themselves live outside the library.

use vstd::prelude::*;

use crate::structures::QueueFamilyIndices;

verus! {

/// What the renderer needs to know of one queue family: how many queues it
/// has, and whether it can run graphics work or present to the surface.
#[derive(Clone, Copy, PartialEq, Eq, Structural, Debug)]
pub struct QueueFamilyInfo {
    pub queue_count: u32,
    pub supports_graphics: bool,
    pub supports_present: bool,
}

/// The family can serve graphics work: it has at least one queue and the
/// graphics capability.
pub open spec fn graphics_ok(f: QueueFamilyInfo) -> bool {
    f.queue_count > 0 && f.supports_graphics
}

/// The family can present to the surface.
pub open spec fn present_ok(f: QueueFamilyInfo) -> bool {
    f.supports_present
}

/// The scan of `find_queue_family` from position `i` onward, carrying the
/// candidates found so far: each family in turn replaces the graphics or the
/// present candidate when capable, and the scan stops as soon as both are
/// filled.
pub open spec fn scan_queue_families(
    families: Seq<QueueFamilyInfo>,
    i: int,
    acc: QueueFamilyIndices,
) -> QueueFamilyIndices
    decreases families.len() - i,
{
    if i < 0 || i >= families.len() {
        acc
    } else {
        let next = QueueFamilyIndices {
            graphics_family: if graphics_ok(families[i]) {
                Some(i as u32)
            } else {
                acc.graphics_family
            },
            present_family: if present_ok(families[i]) {
                Some(i as u32)
            } else {
                acc.present_family
            },
        };
        if next.graphics_family is Some && next.present_family is Some {
            next
        } else {
            scan_queue_families(families, i + 1, next)
        }
    }
}

/// The queue families `find_queue_family` selects.
pub open spec fn chosen_queue_families(families: Seq<QueueFamilyInfo>) -> QueueFamilyIndices {
    scan_queue_families(
        families,
        0,
        QueueFamilyIndices { graphics_family: None, present_family: None },
    )
}

/// A graphics candidate is found by the scan exactly when some family is
/// graphics-capable, and it always names a graphics-capable family; likewise
/// for presentation.
proof fn lemma_scan_queue_families_found(
    families: Seq<QueueFamilyInfo>,
    i: int,
    acc: QueueFamilyIndices,
)
    requires
        0 <= i <= families.len(),
        acc.graphics_family matches Some(g) ==> g < i && graphics_ok(families[g as int]),
        acc.present_family matches Some(p) ==> p < i && present_ok(families[p as int]),
        acc.graphics_family is None ==> forall|j: int| 0 <= j < i ==> !graphics_ok(families[j]),
        acc.present_family is None ==> forall|j: int| 0 <= j < i ==> !present_ok(families[j]),
        !(acc.graphics_family is Some && acc.present_family is Some),
        families.len() <= u32::MAX,
    ensures
        ({
            let r = scan_queue_families(families, i, acc);
            &&& (r.graphics_family is Some <==> exists|j: int|
                0 <= j < families.len() && graphics_ok(families[j]))
            &&& (r.graphics_family matches Some(g) ==> g < families.len() && graphics_ok(
                families[g as int],
            ))
            &&& (r.present_family is Some <==> exists|j: int|
                0 <= j < families.len() && present_ok(families[j]))
            &&& (r.present_family matches Some(p) ==> p < families.len() && present_ok(
                families[p as int],
            ))
        }),
    decreases families.len() - i,
{
    if i == families.len() {
        // The scan is finished; the accumulator is the result.
    } else {
        let next = QueueFamilyIndices {
            graphics_family: if graphics_ok(families[i]) {
                Some(i as u32)
            } else {
                acc.graphics_family
            },
            present_family: if present_ok(families[i]) {
                Some(i as u32)
            } else {
                acc.present_family
            },
        };
        if next.graphics_family is Some && next.present_family is Some {
            // The scan stops here with both capabilities witnessed.
        } else {
            lemma_scan_queue_families_found(families, i + 1, next);
        }
    }
}

/// Scans the queue families for a graphics-capable and a present-capable one,
/// stopping as soon as one of each has been seen. A returned index always
/// names a family with the capability, and a capability is reported missing
/// only when no family at all has it.
pub fn find_queue_family(families: &Vec<QueueFamilyInfo>) -> (r: QueueFamilyIndices)
    requires
        families@.len() <= u32::MAX,
    ensures
        r == chosen_queue_families(families@),
        r.graphics_family is Some <==> exists|j: int|
            0 <= j < families@.len() && graphics_ok(families@[j]),
        r.graphics_family matches Some(g) ==> g < families@.len() && graphics_ok(
            families@[g as int],
        ),
        r.present_family is Some <==> exists|j: int|
            0 <= j < families@.len() && present_ok(families@[j]),
        r.present_family matches Some(p) ==> p < families@.len() && present_ok(
            families@[p as int],
        ),
{
    proof {
        lemma_scan_queue_families_found(
            families@,
            0,
            QueueFamilyIndices { graphics_family: None, present_family: None },
        );
    }
    let n = families.len();
    let mut acc = QueueFamilyIndices { graphics_family: None, present_family: None };
    let mut idx: usize = 0;
    while idx < n
        invariant
            n == families@.len(),
            n <= u32::MAX,
            0 <= idx <= n,
            !(acc.graphics_family is Some && acc.present_family is Some),
            acc.graphics_family matches Some(g) ==> g < idx && graphics_ok(families@[g as int]),
            acc.present_family matches Some(p) ==> p < idx && present_ok(families@[p as int]),
            acc.graphics_family is None ==> forall|j: int|
                0 <= j < idx ==> !graphics_ok(families@[j]),
            acc.present_family is None ==> forall|j: int| 0 <= j < idx ==> !present_ok(families@[j]),
            scan_queue_families(families@, idx as int, acc) == chosen_queue_families(families@),
        decreases n - idx,
    {
        let f = families[idx];
        if f.queue_count > 0 && f.supports_graphics {
            acc.graphics_family = Some(idx as u32);
        }
        if f.supports_present {
            acc.present_family = Some(idx as u32);
        }
        if acc.graphics_family.is_some() && acc.present_family.is_some() {
            return acc;
        }
        idx = idx + 1;
    }
    acc
}

/// The name occurs in `available`.
pub open spec fn name_available(name: Seq<char>, available: Seq<Seq<char>>) -> bool {
    exists|j: int| 0 <= j < available.len() && available[j] == name
}

/// Every name in `required` also occurs in `available`.
pub open spec fn all_names_available(required: Seq<Seq<char>>, available: Seq<Seq<char>>) -> bool {
    forall|i: int| 0 <= i < required.len() ==> name_available(#[trigger] required[i], available)
}

/// Whether `name` occurs in `names`.
fn name_is_available(name: &String, names: &Vec<String>) -> (r: bool)
    ensures
        r == exists|j: int| 0 <= j < names@.len() && names@[j]@ == name@,
{
    let n = names.len();
    let mut idx: usize = 0;
    while idx < n
        invariant
            n == names@.len(),
            0 <= idx <= n,
            forall|j: int| 0 <= j < idx ==> names@[j]@ != name@,
        decreases n - idx,
    {
        if names[idx].eq(name) {
            return true;
        }
        idx = idx + 1;
    }
    false
}

/// Whether every name in `required` occurs in `available`.
fn all_required_available(required: &Vec<String>, available: &Vec<String>) -> (r: bool)
    ensures
        r == all_names_available(required.deep_view(), available.deep_view()),
{
    let ghost req = required.deep_view();
    let ghost avail = available.deep_view();
    proof {
        assert(forall|i: int| 0 <= i < req.len() ==> #[trigger] req[i] == required@[i]@);
        assert(forall|j: int|
            0 <= j < avail.len() ==> #[trigger] avail[j] == available@[j]@);
    }
    let n = required.len();
    let mut idx: usize = 0;
    while idx < n
        invariant
            n == required@.len(),
            req == required.deep_view(),
            avail == available.deep_view(),
            forall|i: int| 0 <= i < req.len() ==> #[trigger] req[i] == required@[i]@,
            forall|j: int|
                0 <= j < avail.len() ==> #[trigger] avail[j] == available@[j]@,
            0 <= idx <= n,
            forall|i: int| 0 <= i < idx ==> name_available(#[trigger] req[i], avail),
        decreases n - idx,
    {
        let found = name_is_available(&required[idx], available);
        if !found {
            proof {
                assert(forall|j: int| 0 <= j < avail.len() ==> avail[j] != req[idx as int]);
                assert(!all_names_available(req, avail)) by {
                    if all_names_available(req, avail) {
                        assert(name_available(req[idx as int], avail));
                        let j = choose|j: int|
                            0 <= j < avail.len() && avail[j] == req[idx as int];
                        assert(false);
                    }
                }
            }
            return false;
        }
        proof {
            let j = choose|j: int|
                0 <= j < available@.len() && available@[j]@
                    == required@[idx as int]@;
            assert(0 <= j < avail.len() && avail[j] == req[idx as int]);
            assert(name_available(req[idx as int], avail));
        }
        idx = idx + 1;
    }
    true
}

/// A device supports the required extensions exactly when every required
/// extension name occurs among the names the device advertises.
pub fn check_device_extension_support(
    required_extensions: &Vec<String>,
    available_extensions: &Vec<String>,
) -> (r: bool)
    ensures
        r == all_names_available(
            required_extensions.deep_view(),
            available_extensions.deep_view(),
        ),
{
    all_required_available(required_extensions, available_extensions)
}

/// Validation layers are supported exactly when the instance advertises any
/// layers at all and every required layer name occurs among them: a missing
/// required layer means the instance cannot honour the request.
pub fn check_validation_layer_support(
    required_validation_layers: &Vec<String>,
    available_layers: &Vec<String>,
) -> (r: bool)
    ensures
        r == (available_layers@.len() > 0 && all_names_available(
            required_validation_layers.deep_view(),
            available_layers.deep_view(),
        )),
{
    if available_layers.is_empty() {
        return false;
    }
    all_required_available(required_validation_layers, available_layers)
}

/// A physical device is suitable when it has complete queue families, the
/// required extensions, and a workable swapchain: at least one surface format
/// and one present mode.
pub fn is_physical_device_suitable(
    indices: &QueueFamilyIndices,
    extensions_supported: bool,
    has_surface_formats: bool,
    has_present_modes: bool,
) -> (r: bool)
    ensures
        r == {
            &&& indices.graphics_family is Some
            &&& indices.present_family is Some
            &&& extensions_supported
            &&& has_surface_formats
            &&& has_present_modes
        },
{
    indices.is_complete() && extensions_supported && has_surface_formats && has_present_modes
}

/// Picks the physical device used for rendering from the suitability verdict
/// on each enumerated device: the last suitable one, or `None` when no device
/// is suitable.
pub fn pick_physical_device(suitable: &Vec<bool>) -> (r: Option<usize>)
    ensures
        r is Some <==> exists|i: int| 0 <= i < suitable@.len() && suitable@[i],
        r matches Some(i) ==> {
            &&& i < suitable@.len()
            &&& suitable@[i as int]
            &&& forall|j: int| i < j < suitable@.len() ==> !suitable@[j]
        },
{
    let n = suitable.len();
    let mut result: Option<usize> = None;
    let mut idx: usize = 0;
    while idx < n
        invariant
            n == suitable@.len(),
            0 <= idx <= n,
            result is Some <==> exists|i: int| 0 <= i < idx && suitable@[i],
            result matches Some(i) ==> {
                &&& i < idx
                &&& suitable@[i as int]
                &&& forall|j: int| i < j < idx ==> !suitable@[j]
            },
        decreases n - idx,
    {
        if suitable[idx] {
            result = Some(idx);
        }
        idx = idx + 1;
    }
    result
}

/// The distinct queue families a logical device must create queues on: the
/// graphics family, and the present family when it differs.
pub fn unique_queue_families(indices: &QueueFamilyIndices) -> (r: Vec<u32>)
    requires
        indices.graphics_family is Some,
        indices.present_family is Some,
    ensures
        indices.graphics_family == indices.present_family ==> r@ == seq![
            indices.graphics_family->0,
        ],
        indices.graphics_family != indices.present_family ==> r@ == seq![
            indices.graphics_family->0,
            indices.present_family->0,
        ],
{
    let g = indices.graphics_family.unwrap();
    let p = indices.present_family.unwrap();
    let mut r: Vec<u32> = Vec::new();
    r.push(g);
    if g != p {
        r.push(p);
        assert(r@ =~= seq![g, p]);
    } else {
        assert(r@ =~= seq![g]);
    }
    r
}

} // verus!
