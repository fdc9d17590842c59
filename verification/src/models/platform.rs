//! Execution platforms and the metadata their detail endpoint returns.
use vstd::prelude::*;

verus! {

#[derive(Debug, Clone)]
pub struct Platform {
    pub id: String,
    pub name: String,
    pub credentials_providers: Vec<String>,
}

#[derive(Debug)]
pub struct ListPlatformsResponse {
    pub platforms: Vec<Platform>,
}

#[derive(Debug, Clone)]
pub struct JobQueue {
    pub name: String,
    pub state: String,
}

#[derive(Debug, Clone)]
pub struct Bucket {
    pub path: String,
}

#[derive(Debug, Clone)]
pub struct FileSystem {
    pub id: String,
    pub dns: String,
    pub mount: String,
}

#[derive(Debug, Clone)]
pub struct EfsFileSystem {
    pub id: String,
}

#[derive(Debug, Clone)]
pub struct Vpc {
    pub id: String,
    pub is_default: bool,
}

#[derive(Debug, Clone)]
pub struct Image {
    pub id: String,
    pub name: String,
    pub description: String,
}

#[derive(Debug, Clone)]
pub struct SecurityGroup {
    pub id: String,
    pub name: String,
    pub vpc_id: String,
}

#[derive(Debug, Clone)]
pub struct Subnet {
    pub id: String,
    pub zone: String,
    pub vpc_id: String,
}

#[derive(Debug, Clone)]
pub struct Filestore {
    pub target: String,
    pub name: String,
    pub location: String,
}

#[derive(Debug)]
pub enum PlatformMetaInfo {
    Type1 {
        warnings: Vec<String>,
        job_queues: Vec<JobQueue>,
        buckets: Vec<Bucket>,
        file_systems: Vec<FileSystem>,
        efs_file_systems: Vec<EfsFileSystem>,
        key_pairs: Vec<String>,
        vpcs: Vec<Vpc>,
        images: Vec<Image>,
        security_groups: Vec<SecurityGroup>,
        subnets: Vec<Subnet>,
        instance_families: Vec<String>,
        alloc_strategy: Vec<String>,
    },
    Type2 {
        locations: Vec<String>,
        warnings: Vec<String>,
        zones: Vec<String>,
        buckets: Vec<Bucket>,
        filestores: Vec<Filestore>,
    },
}

#[derive(Debug)]
pub struct PlatformDetailsResponse {
    pub metainfo: PlatformMetaInfo,
}

#[derive(Debug, Clone)]
pub struct PlatformRegion {
    pub id: String,
    pub name: String,
}

#[derive(Debug)]
pub struct ListPlatformRegionsResponse {
    pub regions: Vec<PlatformRegion>,
}

} // verus!
