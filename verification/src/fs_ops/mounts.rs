//! The disks that can take a back-up.

use vstd::prelude::*;

verus! {

/// A disk that a back-up can be written to.
pub struct Mount {
    pub fs_type: String,
    pub dev: String,
    pub mounted_to: Option<String>,
    pub total_space: u64,
}

/// What the operating system tells about one disk. A text is `None` where
/// it is not valid Unicode.
pub struct DiskInfo {
    pub read_only: bool,
    pub removable: bool,
    pub file_system: Option<String>,
    pub name: Option<String>,
    pub mount_point: Option<String>,
    pub total_space: u64,
}

/// The destination a disk offers: none when it is read-only or not
/// removable, or when its file system or its name is not valid Unicode.
pub open spec fn mount_of(d: DiskInfo) -> Option<Mount> {
    if d.read_only || !d.removable {
        None
    } else {
        match d.file_system {
            None => None,
            Some(fs_type) => match d.name {
                None => None,
                Some(dev) => Some(
                    Mount { fs_type, dev, mounted_to: d.mount_point, total_space: d.total_space },
                ),
            },
        }
    }
}

/// The destinations that `disks` offer, in the order of the disks.
pub open spec fn avail_mounts(disks: Seq<DiskInfo>) -> Seq<Mount>
    decreases disks.len(),
{
    if disks.len() == 0 {
        Seq::empty()
    } else {
        let rest = avail_mounts(disks.drop_last());
        match mount_of(disks.last()) {
            Some(m) => rest.push(m),
            None => rest,
        }
    }
}

/// A read-only or a non-removable disk is never offered, nor one whose file
/// system or name is not valid text; a writable, removable disk with both
/// is offered with its file system, name, mount point and size.
pub proof fn lemma_mount_of_disk(d: DiskInfo)
    ensures
        d.read_only ==> mount_of(d) is None,
        !d.removable ==> mount_of(d) is None,
        d.file_system is None || d.name is None ==> mount_of(d) is None,
        !d.read_only && d.removable && d.file_system is Some && d.name is Some ==> mount_of(d) == Some(
            Mount {
                fs_type: d.file_system->0,
                dev: d.name->0,
                mounted_to: d.mount_point,
                total_space: d.total_space,
            },
        ),
{
}

/// Every offered destination comes from a writable, removable disk with a
/// valid file system and name, carrying that disk's facts; and there are
/// never more destinations than disks.
pub proof fn lemma_avail_mounts_sound(disks: Seq<DiskInfo>)
    ensures
        avail_mounts(disks).len() <= disks.len(),
        forall|j: int| 0 <= j < avail_mounts(disks).len() ==> exists|i: int| {
            &&& 0 <= i < disks.len()
            &&& !disks[i].read_only
            &&& disks[i].removable
            &&& disks[i].file_system == Some(#[trigger] avail_mounts(disks)[j].fs_type)
            &&& disks[i].name == Some(avail_mounts(disks)[j].dev)
            &&& disks[i].mount_point == avail_mounts(disks)[j].mounted_to
            &&& disks[i].total_space == avail_mounts(disks)[j].total_space
        },
    decreases disks.len(),
{
    if disks.len() > 0 {
        let rest = disks.drop_last();
        lemma_avail_mounts_sound(rest);
        let out = avail_mounts(disks);
        assert forall|j: int| 0 <= j < out.len() implies exists|i: int| {
            &&& 0 <= i < disks.len()
            &&& !disks[i].read_only
            &&& disks[i].removable
            &&& disks[i].file_system == Some(#[trigger] out[j].fs_type)
            &&& disks[i].name == Some(out[j].dev)
            &&& disks[i].mount_point == out[j].mounted_to
            &&& disks[i].total_space == out[j].total_space
        } by {
            if j < avail_mounts(rest).len() {
                assert(out[j] == avail_mounts(rest)[j]);
                let i = choose|i: int| {
                    &&& 0 <= i < rest.len()
                    &&& !rest[i].read_only
                    &&& rest[i].removable
                    &&& rest[i].file_system == Some(#[trigger] avail_mounts(rest)[j].fs_type)
                    &&& rest[i].name == Some(avail_mounts(rest)[j].dev)
                    &&& rest[i].mount_point == avail_mounts(rest)[j].mounted_to
                    &&& rest[i].total_space == avail_mounts(rest)[j].total_space
                };
                assert(disks[i] == rest[i]);
            } else {
                let i = disks.len() - 1;
                assert(disks[i] == disks.last());
                assert(out[j] == mount_of(disks.last())->0);
            }
        }
    }
}

/// Every writable, removable disk with a valid file system and name is
/// offered.
pub proof fn lemma_avail_mounts_complete(disks: Seq<DiskInfo>, i: int)
    requires
        0 <= i < disks.len(),
        !disks[i].read_only,
        disks[i].removable,
        disks[i].file_system is Some,
        disks[i].name is Some,
    ensures
        avail_mounts(disks).contains(
            Mount {
                fs_type: disks[i].file_system->0,
                dev: disks[i].name->0,
                mounted_to: disks[i].mount_point,
                total_space: disks[i].total_space,
            },
        ),
    decreases disks.len(),
{
    let m = Mount {
        fs_type: disks[i].file_system->0,
        dev: disks[i].name->0,
        mounted_to: disks[i].mount_point,
        total_space: disks[i].total_space,
    };
    let rest = disks.drop_last();
    if i == disks.len() - 1 {
        let out = avail_mounts(disks);
        assert(out == avail_mounts(rest).push(m));
        assert(out[out.len() - 1] == m);
    } else {
        lemma_avail_mounts_complete(rest, i);
        let k = choose|k: int| 0 <= k < avail_mounts(rest).len() && avail_mounts(rest)[k] == m;
        let out = avail_mounts(disks);
        assert(out[k] == m);
    }
}

/// Destinations come in the order of their disks: with no disks there are
/// none, and a disk added at the end adds its destination, if it offers one,
/// at the end.
pub proof fn lemma_avail_mounts_in_order(disks: Seq<DiskInfo>, d: DiskInfo)
    ensures
        avail_mounts(Seq::<DiskInfo>::empty()).len() == 0,
        !d.read_only && d.removable && d.file_system is Some && d.name is Some ==> avail_mounts(disks.push(d))
            == avail_mounts(disks).push(
            Mount {
                fs_type: d.file_system->0,
                dev: d.name->0,
                mounted_to: d.mount_point,
                total_space: d.total_space,
            },
        ),
        d.read_only || !d.removable || d.file_system is None || d.name is None ==> avail_mounts(disks.push(d))
            == avail_mounts(disks),
{
    assert(disks.push(d).drop_last() =~= disks);
    assert(disks.push(d).last() == d);
}

/// The destination of one disk (see `mount_of`).
fn mount_from_disk(d: &DiskInfo) -> (r: Option<Mount>)
    ensures
        r == mount_of(*d),
{
    if d.read_only || !d.removable {
        return None;
    }
    let fs_type = match &d.file_system {
        Some(f) => f.clone(),
        None => {
            return None;
        },
    };
    let dev = match &d.name {
        Some(n) => n.clone(),
        None => {
            return None;
        },
    };
    let mounted_to = match &d.mount_point {
        Some(p) => Some(p.clone()),
        None => None,
    };
    Some(Mount { fs_type, dev, mounted_to, total_space: d.total_space })
}

/// The removable, writable disks among `disks`, as destinations, in the
/// order of the disks.
pub fn get_avail_mounts(disks: &Vec<DiskInfo>) -> (mounts: Vec<Mount>)
    ensures
        mounts@ == avail_mounts(disks@),
{
    let mut mounts: Vec<Mount> = Vec::new();
    let mut i: usize = 0;
    while i < disks.len()
        invariant
            i <= disks@.len(),
            mounts@ == avail_mounts(disks@.subrange(0, i as int)),
        decreases disks@.len() - i,
    {
        let m = mount_from_disk(&disks[i]);
        assert(disks@.subrange(0, i + 1).drop_last() =~= disks@.subrange(0, i as int));
        match m {
            Some(m) => mounts.push(m),
            None => {},
        }
        i = i + 1;
    }
    assert(disks@.subrange(0, disks@.len() as int) =~= disks@);
    mounts
}

} // verus!
