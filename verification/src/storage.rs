use vstd::prelude::*;

use crate::meta::{meta_suffix, part_suffix, path_join, spec_path_join};
use crate::stream::bytes_eq;
use crate::txn::{Transaction, TxState};

verus! {

/// The bytes of the `tmp` directory component.
pub open spec fn tmp_component() -> Seq<u8> {
    seq![116u8, 109u8, 112u8]
}

/// The bytes of the `final` directory component.
pub open spec fn final_component() -> Seq<u8> {
    seq![102u8, 105u8, 110u8, 97u8, 108u8]
}

/// The directory layout of the store: a base directory with a staging area
/// (`tmp`) and a destination area (`final`) below it.
pub struct FileStorage {
    pub base_dir: Vec<u8>,
    pub tmp_dir: Vec<u8>,
    pub final_dir: Vec<u8>,
}

/// What a scan of the staging area reports of one directory entry: its path,
/// whether it is a directory, and the file names directly inside it.
pub struct StagingEntry {
    pub path: Vec<u8>,
    pub is_dir: bool,
    pub file_names: Vec<Vec<u8>>,
}

/// True when a staging entry holds both the partial payload and the sidecar
/// for this filename.
pub open spec fn entry_matches(e: StagingEntry, filename: Seq<u8>) -> bool {
    &&& e.is_dir
    &&& exists|i: int|
        0 <= i < e.file_names@.len() && e.file_names@[i]@ == filename + part_suffix()
    &&& exists|i: int|
        0 <= i < e.file_names@.len() && e.file_names@[i]@ == filename + meta_suffix()
}

impl FileStorage {
    /// The two working directories stand directly below the base directory.
    pub open spec fn wf(&self) -> bool {
        &&& self.tmp_dir@ == spec_path_join(self.base_dir@, tmp_component())
        &&& self.final_dir@ == spec_path_join(self.base_dir@, final_component())
    }

    /// Lays out a store under `base_dir`: `base_dir/tmp` for staging and
    /// `base_dir/final` for committed payloads.
    pub fn new(base_dir: Vec<u8>) -> (r: FileStorage)
        ensures
            r.wf(),
            r.base_dir@ == base_dir@,
    {
        let tmp_name: Vec<u8> = vec![116u8, 109u8, 112u8];
        let final_name: Vec<u8> = vec![102u8, 105u8, 110u8, 97u8, 108u8];
        proof {
            assert(tmp_name@ =~= tmp_component());
            assert(final_name@ =~= final_component());
        }
        let tmp_dir = path_join(base_dir.as_slice(), tmp_name.as_slice());
        let final_dir = path_join(base_dir.as_slice(), final_name.as_slice());
        FileStorage { base_dir, tmp_dir, final_dir }
    }

    /// Opens a fresh transaction staged under this store's staging area and
    /// destined for its final area.
    pub fn create_transaction(
        &self,
        filename: &[u8],
        total_size: u64,
        expected_sha: Vec<u8>,
    ) -> (r: Transaction)
        requires
            expected_sha@.len() == 32,
        ensures
            r.wf(),
            r.state == TxState::Open,
            r.written_bytes == 0,
            r.total_size == total_size,
            r.content() == Seq::<u8>::empty(),
            r.expected_sha@ == expected_sha@,
            r.filename@ == filename@,
            r.staging_dir@ == spec_path_join(self.tmp_dir@, r.id@),
            r.tmp_path@ == spec_path_join(r.staging_dir@, filename@ + part_suffix()),
            r.meta_path@ == spec_path_join(r.staging_dir@, filename@ + meta_suffix()),
            r.final_path@ == spec_path_join(self.final_dir@, filename@),
    {
        Transaction::new(
            filename,
            expected_sha,
            total_size,
            self.tmp_dir.as_slice(),
            self.final_dir.as_slice(),
        )
    }

    /// Picks the staging entry to resume from: the first directory entry that
    /// holds both `<filename>.part` and `<filename>.meta`, in listing order.
    pub fn find_existing_meta(entries: &Vec<StagingEntry>, filename: &[u8]) -> (r: Option<usize>)
        ensures
            match r {
                Some(i) => {
                    &&& i < entries@.len()
                    &&& entry_matches(entries@[i as int], filename@)
                    &&& forall|j: int| 0 <= j < i ==> !entry_matches(entries@[j], filename@)
                },
                None => forall|j: int|
                    0 <= j < entries@.len() ==> !entry_matches(entries@[j], filename@),
            },
    {
        let mut part_name = vstd::slice::slice_to_vec(filename);
        crate::meta::push_part_suffix(&mut part_name);
        let mut meta_name = vstd::slice::slice_to_vec(filename);
        crate::meta::push_meta_suffix(&mut meta_name);
        let n = entries.len();
        for k in 0..n
            invariant
                n == entries@.len(),
                part_name@ == filename@ + part_suffix(),
                meta_name@ == filename@ + meta_suffix(),
                forall|j: int| 0 <= j < k ==> !entry_matches(entries@[j], filename@),
        {
            let e = &entries[k];
            if e.is_dir {
                let has_part = contains_name(&e.file_names, part_name.as_slice());
                let has_meta = contains_name(&e.file_names, meta_name.as_slice());
                if has_part && has_meta {
                    return Some(k);
                }
            }
        }
        None
    }
}

/// Whether one of the listed names is exactly `target`.
fn contains_name(names: &Vec<Vec<u8>>, target: &[u8]) -> (r: bool)
    ensures
        r <==> exists|i: int| 0 <= i < names@.len() && names@[i]@ == target@,
{
    let n = names.len();
    for k in 0..n
        invariant
            n == names@.len(),
            forall|j: int| 0 <= j < k ==> names@[j]@ != target@,
    {
        if bytes_eq(names[k].as_slice(), target) {
            return true;
        }
    }
    false
}

} // verus!
