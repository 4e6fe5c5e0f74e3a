//! Source's run-length encoded potentially visible set.

use vstd::prelude::*;

use crate::le::copy_range;
use crate::qbsp::util::{bit_is_set, BitsIter};

verus! {

/// The clusters that Source's run-length encoded visibility data lists,
/// starting from the decoder state `(pos, byte, shift, cluster)`.
///
/// Pending bits `shift..8` of `byte` each account for the next cluster below
/// `end`; a set bit lists it. Once the clusters below `end` are used up
/// nothing more is listed. Otherwise the next byte at `pos` is read: a zero
/// byte is followed by a count of whole bytes (8 clusters each) to skip,
/// never past `end`; running out of data ends the listing.
pub open spec fn cluster_run(data: Seq<u8>, pos: int, byte: u8, shift: nat, cluster: int, end: int) -> Seq<int>
    decreases data.len() - pos, 8 - shift,
{
    if shift < 8 {
        if cluster < end {
            if bit_is_set(byte, shift) {
                seq![cluster] + cluster_run(data, pos, byte, shift + 1, cluster + 1, end)
            } else {
                cluster_run(data, pos, byte, shift + 1, cluster + 1, end)
            }
        } else {
            seq![]
        }
    } else if cluster >= end {
        seq![]
    } else if pos < 0 || pos >= data.len() {
        seq![]
    } else if data[pos] == 0 {
        if pos + 1 >= data.len() {
            seq![]
        } else {
            let skipped = cluster + 8 * data[pos + 1];
            cluster_run(data, pos + 2, 0, 8, if skipped < end { skipped } else { end }, end)
        }
    } else {
        cluster_run(data, pos + 1, data[pos], 0, cluster, end)
    }
}

/// The clusters `data` lists as potentially visible, out of `num_clusters`.
pub open spec fn spec_visible_clusters(data: Seq<u8>, num_clusters: int) -> Seq<int> {
    cluster_run(data, 0, 0, 8, 0, num_clusters)
}

/// Every cluster listed lies in `cluster..end` and comes after those listed
/// before it.
pub proof fn lemma_cluster_run_increasing(data: Seq<u8>, pos: int, byte: u8, shift: nat, cluster: int, end: int)
    ensures
        forall|i: int| 0 <= i < cluster_run(data, pos, byte, shift, cluster, end).len() ==>
            cluster <= #[trigger] cluster_run(data, pos, byte, shift, cluster, end)[i] < end,
        forall|i: int, j: int| 0 <= i < j < cluster_run(data, pos, byte, shift, cluster, end).len() ==>
            cluster_run(data, pos, byte, shift, cluster, end)[i] < cluster_run(data, pos, byte, shift, cluster, end)[j],
    decreases data.len() - pos, 8 - shift,
{
    let all = cluster_run(data, pos, byte, shift, cluster, end);
    if shift < 8 {
        if cluster < end {
            lemma_cluster_run_increasing(data, pos, byte, shift + 1, cluster + 1, end);
            let rest = cluster_run(data, pos, byte, shift + 1, cluster + 1, end);
            if bit_is_set(byte, shift) {
                assert(all == seq![cluster] + rest);
                assert forall|i: int| 0 <= i < all.len() implies cluster <= #[trigger] all[i] < end by {
                    if i > 0 {
                        assert(all[i] == rest[i - 1]);
                    }
                }
                assert forall|i: int, j: int| 0 <= i < j < all.len() implies all[i] < all[j] by {
                    assert(all[j] == rest[j - 1]);
                    if i > 0 {
                        assert(all[i] == rest[i - 1]);
                    }
                }
            } else {
                assert(all == rest);
            }
        } else {
            assert(all.len() == 0);
        }
    } else if cluster >= end || pos < 0 || pos >= data.len() {
        assert(all.len() == 0);
    } else if data[pos] == 0 {
        if pos + 1 < data.len() {
            let skipped = cluster + 8 * data[pos + 1];
            let next = if skipped < end {
                skipped
            } else {
                end
            };
            lemma_cluster_run_increasing(data, pos + 2, 0, 8, next, end);
            assert(all == cluster_run(data, pos + 2, 0, 8, next, end));
        } else {
            assert(all.len() == 0);
        }
    } else {
        lemma_cluster_run_increasing(data, pos + 1, data[pos], 0, cluster, end);
        assert(all == cluster_run(data, pos + 1, data[pos], 0, cluster, end));
    }
}

/// A lazy walk over Source's run-length encoded visibility data.
pub struct VisdataIter {
    data: Vec<u8>,
    pos: usize,
    /// The next cluster to account for, and the end of the cluster range.
    cluster: u32,
    end: u32,
    /// If `Some`, we are currently iterating over the bits in a byte.
    cur_byte: Option<BitsIter>,
}

impl VisdataIter {
    pub closed spec fn wf(&self) -> bool {
        &&& self.pos <= self.data@.len()
        &&& self.cluster <= self.end
        &&& self.cur_byte matches Some(b) ==> b.shift <= 8
    }

    /// The clusters this iterator has yet to produce.
    pub closed spec fn remaining(&self) -> Seq<int> {
        match self.cur_byte {
            Some(b) => cluster_run(self.data@, self.pos as int, b.byte, b.shift as nat, self.cluster as int, self.end as int),
            None => cluster_run(self.data@, self.pos as int, 0, 8, self.cluster as int, self.end as int),
        }
    }

    /// The next potentially visible cluster, or `None` when the listing is
    /// over.
    pub fn next(&mut self) -> (r: Option<u32>)
        requires
            old(self).wf(),
        ensures
            final(self).wf(),
            old(self).remaining().len() == 0 ==> r is None,
            old(self).remaining().len() > 0 ==> r is Some && final(self).remaining() == old(self).remaining().drop_first(),
            r matches Some(v) ==> v as int == old(self).remaining()[0],
    {
        loop
            invariant
                self.wf(),
                self.remaining() == old(self).remaining(),
            decreases self.data@.len() - self.pos, (match self.cur_byte {
                Some(b) => 8 - b.shift,
                None => 9int,
            }),
        {
            let ghost before = self.remaining();
            let cur = match &mut self.cur_byte {
                Some(bits) => bits.next(),
                None => None,
            };
            match cur {
                Some(is_visible) => {
                    if self.cluster < self.end {
                        let value = self.cluster;
                        self.cluster = self.cluster + 1;
                        if is_visible {
                            assert(before == seq![value as int] + self.remaining());
                            assert(before[0] == value as int);
                            assert(self.remaining() == before.drop_first());
                            return Some(value);
                        }
                    } else {
                        return None;
                    }
                },
                None => {
                    if let Some(b) = &self.cur_byte {
                        assert(b.shift == 8);
                    }
                    if self.cluster >= self.end {
                        return None;
                    }
                    if self.pos >= self.data.len() {
                        return None;
                    }
                    let next_byte = self.data[self.pos];
                    self.pos = self.pos + 1;
                    if next_byte == 0 {
                        if self.pos >= self.data.len() {
                            return None;
                        }
                        let advance_by = self.data[self.pos];
                        self.pos = self.pos + 1;
                        let skipped = self.cluster as u64 + 8 * (advance_by as u64);
                        self.cluster = if skipped < self.end as u64 {
                            skipped as u32
                        } else {
                            self.end
                        };
                        self.cur_byte = None;
                    } else {
                        self.cur_byte = Some(BitsIter::new(next_byte));
                    }
                },
            }
        }
    }

    /// Every cluster still to come, in order.
    pub fn collect_all(self) -> (r: Vec<u32>)
        requires
            self.wf(),
        ensures
            r@.len() == self.remaining().len(),
            forall|i: int| 0 <= i < r@.len() ==> r@[i] as int == #[trigger] self.remaining()[i],
    {
        let ghost all = self.remaining();
        let mut it = self;
        let mut out: Vec<u32> = Vec::new();
        loop
            invariant
                it.wf(),
                all == self.remaining(),
                out@.len() + it.remaining().len() == all.len(),
                forall|i: int| 0 <= i < out@.len() ==> out@[i] as int == #[trigger] all[i],
                forall|i: int| 0 <= i < it.remaining().len() ==> #[trigger] it.remaining()[i] == all[out@.len() + i],
            decreases it.remaining().len(),
        {
            let ghost before = it.remaining();
            match it.next() {
                Some(v) => {
                    out.push(v);
                    assert(before.len() > 0);
                    assert(out@[out@.len() - 1] as int == all[out@.len() - 1]);
                },
                None => {
                    assert(before.len() == 0);
                    assert(out@.len() == all.len());
                    return out;
                },
            }
        }
    }
}

/// Iterate over the potentially visible clusters that the run-length
/// encoded `vis_data` lists, out of `num_clusters`.
pub fn calculate_visdata_indices(vis_data: &[u8], num_clusters: u32) -> (r: VisdataIter)
    ensures
        r.wf(),
        r.remaining() == spec_visible_clusters(vis_data@, num_clusters as int),
{
    let data = copy_range(vis_data, 0, vis_data.len());
    assert(data@ =~= vis_data@);
    VisdataIter { data, pos: 0, cluster: 0, end: num_clusters, cur_byte: None }
}

/// The VISIBILITY lump: per-cluster offsets of each cluster's PVS and PAS
/// bit vectors, and the compressed vectors themselves.
#[derive(Default, Debug, Clone)]
pub struct VisData {
    pub cluster_count: u32,
    pub pvs_offsets: Vec<i32>,
    pub pas_offsets: Vec<i32>,
    /// The lump's bytes after the offset table.
    pub data: Vec<u8>,
}

impl VisData {
    /// Where `data` starts in the lump: past the cluster count and both
    /// offset tables.
    pub open spec fn spec_offset_start(&self) -> int {
        (4 * self.pvs_offsets@.len() + 4 * self.pas_offsets@.len() + 4) as int
    }

    /// The offset of cluster `cluster`'s PVS within `data`, when it has one:
    /// the cluster must exist and its lump offset lie past the offset table.
    pub open spec fn pvs_data_offset(&self, cluster: u32) -> Option<int> {
        if cluster < self.pvs_offsets@.len() && self.pvs_offsets@[cluster as int] - self.spec_offset_start() >= 0 {
            Some(self.pvs_offsets@[cluster as int] - self.spec_offset_start())
        } else {
            None
        }
    }

    fn offset_start(&self) -> (r: usize)
        requires
            self.spec_offset_start() <= usize::MAX,
        ensures
            r == self.spec_offset_start(),
    {
        4 * self.pvs_offsets.len() + 4 * self.pas_offsets.len() + 4
    }

    /// The clusters potentially visible from `cluster`. A cluster without a
    /// PVS, or whose offset points into the offset table, sees nothing.
    pub fn visible_clusters(&self, cluster: u32) -> (r: VisdataIter)
        requires
            self.spec_offset_start() <= i32::MAX,
            cluster < self.pvs_offsets@.len() ==> self.pvs_offsets@[cluster as int] - self.spec_offset_start() >= i32::MIN,
            self.pvs_data_offset(cluster) matches Some(o) ==> o <= self.data@.len(),
        ensures
            r.wf(),
            r.remaining() == match self.pvs_data_offset(cluster) {
                Some(o) => spec_visible_clusters(self.data@.subrange(o, self.data@.len() as int), self.cluster_count as int),
                None => Seq::empty(),
            },
    {
        let empty: Vec<u8> = Vec::new();
        if cluster as usize >= self.pvs_offsets.len() {
            let r = calculate_visdata_indices(empty.as_slice(), 0);
            return r;
        }
        let offset = self.pvs_offsets[cluster as usize] as i64 - self.offset_start() as i64;
        if offset < 0 {
            return calculate_visdata_indices(empty.as_slice(), 0);
        }
        let o = offset as usize;
        calculate_visdata_indices(&self.data.as_slice()[o..self.data.len()], self.cluster_count)
    }
}

} // verus!
