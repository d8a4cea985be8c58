//! The units of work that a read plan hands to scan processors.

use vstd::prelude::*;
use vstd::string::*;
use crate::error::ErrorCode;
use crate::error::ErrorKind;

verus! {

/// One file of a stage, as a listing reports it.
#[derive(Debug)]
pub struct StageFileInfo {
    pub path: String,
    pub size: u64,
}

impl Clone for StageFileInfo {
    fn clone(&self) -> (r: Self)
        ensures
            r == *self,
    {
        StageFileInfo { path: self.path.clone(), size: self.size }
    }
}

impl StageFileInfo {
    /// The file at `path` of `size` bytes.
    pub fn new(path: &str, size: u64) -> (f: StageFileInfo)
        ensures
            f.path@ == path@,
            f.size == size,
    {
        StageFileInfo { path: String::from_str(path), size }
    }
}

/// A copy of a list of files: the same files in the same order.
pub fn clone_files(files: &Vec<StageFileInfo>) -> (copy: Vec<StageFileInfo>)
    ensures
        copy@ == files@,
{
    let mut copy: Vec<StageFileInfo> = Vec::new();
    let mut i: usize = 0;
    while i < files.len()
        invariant
            i <= files.len(),
            copy@ == files@.subrange(0, i as int),
        decreases files.len() - i,
    {
        copy.push(files[i].clone());
        i += 1;
    }
    assert(files@.subrange(0, files.len() as int) == files@);
    copy
}

/// One data file of an iceberg table.
#[derive(Debug)]
pub struct IcebergPartInfo {
    pub path: String,
    pub size: u64,
}

/// A partition of a read plan: what one scan processor reads in one go.
#[derive(Debug)]
pub enum PartInfo {
    /// A data file of an iceberg table.
    Iceberg(IcebergPartInfo),
    /// A file of a stage.
    Stage(StageFileInfo),
}

impl Clone for PartInfo {
    fn clone(&self) -> (r: Self)
        ensures
            r == *self,
    {
        match self {
            PartInfo::Iceberg(p) => PartInfo::Iceberg(
                IcebergPartInfo { path: p.path.clone(), size: p.size },
            ),
            PartInfo::Stage(f) => PartInfo::Stage(f.clone()),
        }
    }
}

impl IcebergPartInfo {
    /// The partition that stands for the data file at `path` of `size` bytes.
    pub fn create(path: &str, size: u64) -> (part: PartInfo)
        ensures
            part matches PartInfo::Iceberg(p) && p.path@ == path@ && p.size == size,
    {
        PartInfo::Iceberg(IcebergPartInfo { path: String::from_str(path), size })
    }

    /// The iceberg data file behind `info`; an `InternalError` where `info` is a
    /// partition of another kind.
    pub fn from_part(info: &PartInfo) -> (r: Result<&IcebergPartInfo, ErrorCode>)
        ensures
            match *info {
                PartInfo::Iceberg(p) => r == Ok::<&IcebergPartInfo, ErrorCode>(&p),
                PartInfo::Stage(_) => r is Err && r->Err_0.kind == ErrorKind::InternalError
                    && r->Err_0.message@ == "Cannot downcast from PartInfo to IcebergPartInfo."@,
            },
    {
        match info {
            PartInfo::Iceberg(p) => Ok(p),
            PartInfo::Stage(_) => Err(
                ErrorCode::create(
                    ErrorKind::InternalError,
                    "Cannot downcast from PartInfo to IcebergPartInfo.",
                ),
            ),
        }
    }
}

/// A copy of a list of partitions: the same partitions in the same order.
pub fn clone_parts(parts: &Vec<PartInfo>) -> (copy: Vec<PartInfo>)
    ensures
        copy@ == parts@,
{
    let mut copy: Vec<PartInfo> = Vec::new();
    let mut i: usize = 0;
    while i < parts.len()
        invariant
            i <= parts.len(),
            copy@ == parts@.subrange(0, i as int),
        decreases parts.len() - i,
    {
        copy.push(parts[i].clone());
        i += 1;
    }
    assert(parts@.subrange(0, parts.len() as int) == parts@);
    copy
}

} // verus!
