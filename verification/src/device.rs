//! Picking a graphics device and its queue families.
//!
//! The renderer asks the graphics API for the machine's physical devices
//! and, for each, its queue families, device extensions, surface formats
//! and present modes. Those answers arrive here as plain values; this
//! module holds the policy that chooses among them: which queue family
//! serves graphics work and which presentation, and which device is
//! suitable at all.

use vstd::prelude::*;

verus! {

/// What the renderer reads of one queue family: how many queues it
/// offers and which capabilities it advertises.
#[derive(Clone, Copy, Debug, PartialEq, Eq, Structural)]
pub struct QueueFamilyInfo {
    /// Number of queues in the family.
    pub queue_count: u32,
    /// The family accepts graphics commands.
    pub supports_graphics: bool,
    /// The family accepts compute commands.
    pub supports_compute: bool,
    /// The family can present to the window's surface.
    pub supports_present: bool,
}

/// A family is considered at all only when it offers at least one queue.
pub open spec fn family_active(f: QueueFamilyInfo) -> bool {
    f.queue_count > 0
}

/// A family that can carry the whole workload: graphics and compute
/// commands, and presentation to the surface.
pub open spec fn family_complete(f: QueueFamilyInfo) -> bool {
    f.supports_graphics && f.supports_compute && f.supports_present
}

/// The subsequence of families that offer at least one queue, in order.
/// Queue indices are positions in this subsequence.
pub open spec fn active_families(s: Seq<QueueFamilyInfo>) -> Seq<QueueFamilyInfo>
    decreases s.len(),
{
    if s.len() == 0 {
        Seq::empty()
    } else if family_active(s.last()) {
        active_families(s.drop_last()).push(s.last())
    } else {
        active_families(s.drop_last())
    }
}

/// Some active family is complete.
pub open spec fn has_complete_family(s: Seq<QueueFamilyInfo>) -> bool {
    exists|j: int| 0 <= j < s.len() && family_complete(s[j])
}

/// Position `j` holds the first complete family of `s`.
pub open spec fn first_complete_at(s: Seq<QueueFamilyInfo>, j: int) -> bool {
    &&& 0 <= j < s.len()
    &&& family_complete(s[j])
    &&& forall|k: int| 0 <= k < j ==> !family_complete(s[k])
}

proof fn lemma_active_families_len(s: Seq<QueueFamilyInfo>)
    ensures
        active_families(s).len() <= s.len(),
    decreases s.len(),
{
    if s.len() > 0 {
        lemma_active_families_len(s.drop_last());
    }
}

proof fn lemma_active_families_add(a: Seq<QueueFamilyInfo>, b: Seq<QueueFamilyInfo>)
    ensures
        active_families(a + b) == active_families(a) + active_families(b),
    decreases b.len(),
{
    if b.len() == 0 {
        assert(a + b =~= a);
        assert(active_families(b) =~= Seq::<QueueFamilyInfo>::empty());
        assert(active_families(a) + active_families(b) =~= active_families(a));
    } else {
        lemma_active_families_add(a, b.drop_last());
        assert((a + b).drop_last() =~= a + b.drop_last());
        assert((a + b).last() == b.last());
        if family_active(b.last()) {
            assert(active_families(a + b) == (active_families(a) + active_families(
                b.drop_last(),
            )).push(b.last()));
            assert((active_families(a) + active_families(b.drop_last())).push(b.last())
                =~= active_families(a) + active_families(b.drop_last()).push(b.last()));
        }
    }
}

proof fn lemma_active_families_singleton(f: QueueFamilyInfo)
    ensures
        active_families(seq![f]) == (if family_active(f) {
            seq![f]
        } else {
            Seq::<QueueFamilyInfo>::empty()
        }),
{
    assert(seq![f].drop_last() =~= Seq::<QueueFamilyInfo>::empty());
    assert(active_families(Seq::<QueueFamilyInfo>::empty()) =~= Seq::<QueueFamilyInfo>::empty());
    if family_active(f) {
        assert(active_families(seq![f]) =~= seq![f]);
    }
}

/// The queue family indices the renderer settles on: one family for
/// graphics work, one for presentation, each a position among the
/// families that offer at least one queue.
#[derive(Clone, Copy, Debug, PartialEq, Eq, Structural)]
pub struct QueueSelection {
    /// Index of the family chosen for graphics and compute commands.
    pub graphics: Option<u32>,
    /// Index of the family chosen for presentation.
    pub present: Option<u32>,
}

/// Walks the queue families in order, skipping those without queues,
/// and settles on the first family that carries graphics, compute and
/// presentation at once; both indices then name that family. When no
/// family carries all three, what remains is the verdict on the last
/// active family alone: each index is set exactly when that family has
/// the matching capability, so at least one of the two stays `None`.
pub fn select_queue_family_indices(families: &Vec<QueueFamilyInfo>) -> (r: QueueSelection)
    requires
        families@.len() <= u32::MAX,
    ensures
        ({
            let fa = active_families(families@);
            &&& (has_complete_family(fa) <==> (r.graphics is Some && r.present is Some))
            &&& forall|j: int|
                first_complete_at(fa, j) ==> r.graphics == Some(j as u32) && r.present == Some(
                    j as u32,
                )
            &&& (!has_complete_family(fa) && fa.len() > 0) ==> {
                let lf = fa.last();
                &&& r.graphics == (if lf.supports_graphics && lf.supports_compute {
                    Some((fa.len() - 1) as u32)
                } else {
                    None::<u32>
                })
                &&& r.present == (if lf.supports_present {
                    Some((fa.len() - 1) as u32)
                } else {
                    None::<u32>
                })
            }
            &&& fa.len() == 0 ==> r.graphics is None && r.present is None
        }),
{
    let ghost fa = active_families(families@);
    let mut graphics: Option<u32> = None;
    let mut present: Option<u32> = None;
    let mut k: u32 = 0;
    let mut i: usize = 0;
    let n = families.len();
    while i < n
        invariant
            i <= n,
            n == families@.len(),
            families@.len() <= u32::MAX,
            fa == active_families(families@),
            k == active_families(families@.take(i as int)).len(),
            forall|j: int|
                0 <= j < active_families(families@.take(i as int)).len() ==> !family_complete(
                    active_families(families@.take(i as int))[j],
                ),
            k == 0 ==> graphics is None && present is None,
            k > 0 ==> {
                let lf = active_families(families@.take(i as int)).last();
                &&& graphics == (if lf.supports_graphics && lf.supports_compute {
                    Some((k - 1) as u32)
                } else {
                    None::<u32>
                })
                &&& present == (if lf.supports_present {
                    Some((k - 1) as u32)
                } else {
                    None::<u32>
                })
            },
        decreases n - i,
    {
        let f = families[i];
        proof {
            lemma_active_families_len(families@.take(i as int));
            assert(families@.take(i as int + 1) =~= families@.take(i as int) + seq![
                families@[i as int],
            ]);
            lemma_active_families_add(families@.take(i as int), seq![families@[i as int]]);
            lemma_active_families_singleton(families@[i as int]);
        }
        if f.queue_count > 0 {
            graphics = if f.supports_graphics && f.supports_compute {
                Some(k)
            } else {
                None
            };
            present = if f.supports_present {
                Some(k)
            } else {
                None
            };
            if graphics.is_some() && present.is_some() {
                proof {
                    let pre = active_families(families@.take(i as int));
                    assert(families@ =~= families@.take(i as int + 1) + families@.skip(
                        i as int + 1,
                    ));
                    lemma_active_families_add(
                        families@.take(i as int + 1),
                        families@.skip(i as int + 1),
                    );
                    assert(active_families(families@.take(i as int + 1)) == pre.push(
                        families@[i as int],
                    ));
                    assert(fa[k as int] == families@[i as int]);
                    assert(forall|j: int| 0 <= j < k ==> fa[j] == pre[j]);
                    assert(first_complete_at(fa, k as int));
                    assert forall|j: int| first_complete_at(fa, j) implies j == k as int by {
                        assert(family_complete(fa[k as int]));
                    }
                }
                return QueueSelection { graphics, present };
            }
            k = k + 1;
        }
        i = i + 1;
    }
    proof {
        assert(families@.take(n as int) =~= families@);
        if has_complete_family(fa) {
            let j = choose|j: int| 0 <= j < fa.len() && family_complete(fa[j]);
            assert(!family_complete(fa[j]));
        }
    }
    QueueSelection { graphics, present }
}

/// Whether two byte strings hold the same bytes. Extension names reach
/// the renderer as byte strings, so this is how it compares them.
pub fn bytes_equal(a: &Vec<u8>, b: &Vec<u8>) -> (r: bool)
    ensures
        r == (a@ == b@),
{
    if a.len() != b.len() {
        return false;
    }
    let mut i: usize = 0;
    while i < a.len()
        invariant
            a@.len() == b@.len(),
            i <= a@.len(),
            forall|j: int| 0 <= j < i ==> a@[j] == b@[j],
        decreases a@.len() - i,
    {
        if a[i] != b[i] {
            return false;
        }
        i = i + 1;
    }
    proof {
        assert(a@ =~= b@);
    }
    true
}

/// The list of extension names holds the one asked for.
pub open spec fn supports_extension(exts: Seq<Vec<u8>>, name: Seq<u8>) -> bool {
    exists|i: int| 0 <= i < exts.len() && exts[i]@ == name
}

/// Looks through a device's extension names for the one the renderer
/// needs (in practice the swapchain extension).
pub fn device_supports_extension(extensions: &Vec<Vec<u8>>, name: &Vec<u8>) -> (r: bool)
    ensures
        r == supports_extension(extensions@, name@),
{
    let mut i: usize = 0;
    while i < extensions.len()
        invariant
            i <= extensions@.len(),
            forall|j: int| 0 <= j < i ==> extensions@[j]@ != name@,
        decreases extensions@.len() - i,
    {
        if bytes_equal(&extensions[i], name) {
            return true;
        }
        i = i + 1;
    }
    false
}

/// What the renderer reads of one physical device: its queue families,
/// the extensions it offers, and how many surface formats and present
/// modes it reports for the window's surface.
#[derive(Debug)]
pub struct DeviceInfo {
    /// The device's queue families, in the order the API reports them.
    pub queue_families: Vec<QueueFamilyInfo>,
    /// Names of the device extensions the device offers, as byte strings.
    pub extension_names: Vec<Vec<u8>>,
    /// How many surface formats the device supports for the surface.
    pub format_count: usize,
    /// How many present modes the device supports for the surface.
    pub present_mode_count: usize,
}

/// A device the renderer can use: some active queue family carries
/// graphics, compute and presentation at once, the required extension
/// is offered, and the surface has at least one format and one present
/// mode on it.
pub open spec fn device_suitable(dev: DeviceInfo, name: Seq<u8>) -> bool {
    &&& has_complete_family(active_families(dev.queue_families@))
    &&& supports_extension(dev.extension_names@, name)
    &&& dev.format_count > 0
    &&& dev.present_mode_count > 0
}

/// Decides whether one device is suitable, given the name of the
/// extension the renderer requires.
pub fn device_is_suitable(dev: &DeviceInfo, required_extension: &Vec<u8>) -> (r: bool)
    requires
        dev.queue_families@.len() <= u32::MAX,
    ensures
        r == device_suitable(*dev, required_extension@),
{
    let sel = select_queue_family_indices(&dev.queue_families);
    if sel.graphics.is_none() || sel.present.is_none() {
        return false;
    }
    if !device_supports_extension(&dev.extension_names, required_extension) {
        return false;
    }
    dev.format_count > 0 && dev.present_mode_count > 0
}

/// Picks the first suitable device, in the order the API reported them,
/// or nothing when no device on the machine qualifies.
pub fn select_physical_device(devices: &Vec<DeviceInfo>, required_extension: &Vec<u8>) -> (r:
    Option<usize>)
    requires
        forall|d: int|
            0 <= d < devices@.len() ==> (#[trigger] devices@[d]).queue_families@.len() <= u32::MAX,
    ensures
        match r {
            Some(d) => {
                &&& 0 <= d < devices@.len()
                &&& device_suitable(devices@[d as int], required_extension@)
                &&& forall|e: int|
                    0 <= e < d ==> !device_suitable(devices@[e], required_extension@)
            },
            None => forall|e: int|
                0 <= e < devices@.len() ==> !device_suitable(devices@[e], required_extension@),
        },
{
    let mut i: usize = 0;
    while i < devices.len()
        invariant
            i <= devices@.len(),
            forall|d: int|
                0 <= d < devices@.len() ==> (#[trigger] devices@[d]).queue_families@.len()
                    <= u32::MAX,
            forall|e: int| 0 <= e < i ==> !device_suitable(devices@[e], required_extension@),
        decreases devices@.len() - i,
    {
        if device_is_suitable(&devices[i], required_extension) {
            return Some(i);
        }
        i = i + 1;
    }
    None
}

/// The distinct queue family indices a logical device must be built
/// with: the graphics index, then the present index when it differs.
pub fn unique_queue_indices(graphics: u32, present: u32) -> (v: Vec<u32>)
    ensures
        v@ == (if graphics == present {
            seq![graphics]
        } else {
            seq![graphics, present]
        }),
{
    let mut v: Vec<u32> = Vec::new();
    v.push(graphics);
    if present != graphics {
        v.push(present);
        proof {
            assert(v@ =~= seq![graphics, present]);
        }
    } else {
        proof {
            assert(v@ =~= seq![graphics]);
        }
    }
    v
}

} // verus!
