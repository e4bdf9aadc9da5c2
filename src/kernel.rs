//! The kernel catalog: which image file serves a kernel name and version.
use vstd::prelude::*;
use crate::error::VmManageError;

verus! {

/// One record of the kernel catalog.
#[derive(Debug, Clone)]
pub struct KernelItem {
    pub kernel_name: String,
    pub kernel_version: String,
    pub path: String,
}

pub open spec fn item_matches(item: KernelItem, name: Seq<char>, version: Seq<char>) -> bool {
    item.kernel_name@ == name && item.kernel_version@ == version
}

/// Whether record `i` is the first one of the catalog for `name` and
/// `version`.
pub open spec fn is_first_match(catalog: Seq<KernelItem>, i: int, name: Seq<char>, version: Seq<char>) -> bool {
    &&& 0 <= i < catalog.len()
    &&& item_matches(catalog[i], name, version)
    &&& forall|j: int| 0 <= j < i ==> !item_matches(#[trigger] catalog[j], name, version)
}

/// Whether some record of the catalog is for `name` and `version`.
pub open spec fn has_match(catalog: Seq<KernelItem>, name: Seq<char>, version: Seq<char>) -> bool {
    exists|i: int| 0 <= i < catalog.len() && item_matches(#[trigger] catalog[i], name, version)
}

/// The index of the first record for `name` and `version`.
pub open spec fn first_match(catalog: Seq<KernelItem>, name: Seq<char>, version: Seq<char>) -> int {
    choose|i: int| is_first_match(catalog, i, name, version)
}

proof fn lemma_first_match_unique(catalog: Seq<KernelItem>, i: int, name: Seq<char>, version: Seq<char>)
    requires
        is_first_match(catalog, i, name, version),
    ensures
        first_match(catalog, name, version) == i,
{
    let k = first_match(catalog, name, version);
    assert(is_first_match(catalog, k, name, version));
    if k < i {
        assert(!item_matches(catalog[k], name, version));
    } else if i < k {
        assert(!item_matches(catalog[i], name, version));
    }
}

/// The image path of the first catalog record for the kernel name and
/// version, or `KernelNotFound` naming both when no record matches.
pub fn get_kernel_image_path(catalog: &Vec<KernelItem>, kernel_name: &String, kernel_version: &String) -> (r:
    Result<String, VmManageError>)
    ensures
        r is Ok <==> has_match(catalog@, kernel_name@, kernel_version@),
        r matches Ok(p) ==> p == catalog@[first_match(catalog@, kernel_name@, kernel_version@)].path,
        r matches Err(e) ==> e == (VmManageError::KernelNotFound { name: *kernel_name, version: *kernel_version }),
{
    let mut i: usize = 0;
    while i < catalog.len()
        invariant
            i <= catalog@.len(),
            forall|j: int| 0 <= j < i ==> !item_matches(#[trigger] catalog@[j], kernel_name@, kernel_version@),
        decreases catalog@.len() - i,
    {
        let item = &catalog[i];
        if item.kernel_name == *kernel_name && item.kernel_version == *kernel_version {
            proof {
                lemma_first_match_unique(catalog@, i as int, kernel_name@, kernel_version@);
            }
            return Ok(item.path.clone());
        }
        i = i + 1;
    }
    Err(VmManageError::KernelNotFound { name: kernel_name.clone(), version: kernel_version.clone() })
}

} // verus!
