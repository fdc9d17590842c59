//! Compute environments and their platform-specific configurations.
use vstd::prelude::*;

verus! {

#[derive(Debug, Clone, Copy, PartialEq, Eq, Structural)]
pub enum ComputeEnvStatus {
    Creating,
    Available,
    Errored,
    Invalid,
}

impl ComputeEnvStatus {
    /// The status keyword as the service spells it.
    pub fn as_str(&self) -> (r: &'static str)
        ensures
            match *self {
                ComputeEnvStatus::Creating => r@ == "CREATING"@,
                ComputeEnvStatus::Available => r@ == "AVAILABLE"@,
                ComputeEnvStatus::Errored => r@ == "ERRORED"@,
                ComputeEnvStatus::Invalid => r@ == "INVALID"@,
            },
    {
        match self {
            ComputeEnvStatus::Creating => "CREATING",
            ComputeEnvStatus::Available => "AVAILABLE",
            ComputeEnvStatus::Errored => "ERRORED",
            ComputeEnvStatus::Invalid => "INVALID",
        }
    }
}

#[derive(Debug, Clone, Copy)]
pub enum Platform {
    AwsBatch,
    GoogleLifesciences,
    GoogleBatch,
    AzureBatch,
    K8sPlatform,
    EksPlatform,
    GkePlatform,
    UgePlatform,
    SlurmPlatform,
    LsfPlatform,
    AltairPlatform,
}

#[derive(Debug, Clone)]
pub struct EnvVar {
    pub name: String,
    pub value: String,
    pub head: bool,
    pub compute: bool,
}

#[derive(Debug, Clone)]
pub struct Label {
    pub id: i64,
    pub name: String,
    pub value: String,
    pub resource: bool,
    pub is_default: bool,
}

/// A compute environment as the listing endpoint returns it; timestamps are
/// carried as the service's own strings.
#[derive(Debug)]
pub struct ComputeEnv {
    pub credentials_id: String,
    pub id: String,
    pub name: String,
    pub platform: String,
    pub region: Option<String>,
    pub status: ComputeEnvStatus,
    pub visibility: String,
    pub work_dir: String,
    pub workspace_name: String,
    pub message: Option<String>,
    pub last_used: Option<String>,
    pub primary: Option<bool>,
}

#[derive(Debug)]
pub struct ListComputeEnvsResponse {
    pub compute_envs: Vec<ComputeEnv>,
}

#[derive(Debug)]
pub struct UpdateComputeEnvRequest {
    pub name: String,
    pub credentials_id: String,
}

#[derive(Debug)]
pub struct BaseConfig {
    pub work_dir: String,
    pub pre_run_script: Option<String>,
    pub post_run_script: Option<String>,
    pub environment: Vec<EnvVar>,
    pub nextflow_config: Option<String>,
}

#[derive(Debug)]
pub struct AwsForgeConfig {
    pub instance_type: String,
    pub min_cpus: i32,
    pub max_cpus: i32,
    pub gpu_enabled: bool,
    pub ebs_auto_scale: Option<bool>,
    pub instance_types: Vec<String>,
    pub alloc_strategy: Option<String>,
    pub image_id: Option<String>,
    pub vpc_id: Option<String>,
    pub subnets: Vec<String>,
    pub security_groups: Vec<String>,
    pub fsx_mount: Option<String>,
    pub fsx_name: Option<String>,
    pub fsx_size: Option<i32>,
    pub dispose_on_deletion: Option<bool>,
    pub ec2_key_pair: Option<String>,
    pub allow_buckets: Vec<String>,
    pub ebs_block_size: Option<i32>,
    pub fusion_enabled: Option<bool>,
    pub bid_percentage: Option<i32>,
    pub efs_create: bool,
    pub efs_id: Option<String>,
    pub efs_mount: Option<String>,
    pub dragen_enabled: bool,
    pub dragen_ami_id: String,
    pub ebs_boot_size: Option<i32>,
    pub ecs_config: Option<String>,
    pub fargate_head_enabled: Option<bool>,
    pub arm64_enabled: Option<bool>,
    pub dragen_instance_type: Option<String>,
}

#[derive(Debug)]
pub struct GoogleLifeSciencesConfig {
    pub base: BaseConfig,
    pub region: String,
    pub zones: Vec<String>,
    pub location: String,
    pub preemptible: bool,
    pub boot_disk_size_gb: i32,
    pub project_id: String,
    pub ssh_daemon: bool,
    pub ssh_image: String,
    pub debug_mode: i32,
    pub copy_image: String,
    pub use_private_address: bool,
    pub labels: Vec<(String, String)>,
    pub head_job_cpus: i32,
    pub head_job_memory_mb: i32,
    pub nfs_target: String,
    pub nfs_mount: String,
}

#[derive(Debug)]
pub struct GoogleBatchConfig {
    pub base: BaseConfig,
    pub location: String,
    pub spot: bool,
    pub boot_disk_size_gb: i32,
    pub cpu_platform: String,
    pub machine_type: String,
    pub project_id: String,
    pub ssh_daemon: bool,
    pub ssh_image: String,
    pub debug_mode: i32,
    pub copy_image: String,
    pub use_private_address: bool,
    pub labels: Vec<(String, String)>,
    pub head_job_cpus: i32,
    pub head_job_memory_mb: i32,
    pub nfs_target: String,
    pub nfs_mount: String,
    pub wave_enabled: bool,
    pub fusion2_enabled: bool,
    pub service_account: String,
    pub network: String,
    pub subnetwork: String,
    pub head_job_instance_template: String,
    pub compute_jobs_instance_template: String,
}

#[derive(Debug)]
pub struct AzureForgeConfig {
    pub vm_type: String,
    pub vm_count: i32,
    pub auto_scale: bool,
    pub dispose_on_deletion: Option<bool>,
    pub container_reg_ids: Option<Vec<String>>,
}

#[derive(Debug, Clone, Copy, PartialEq, Eq, Structural)]
pub enum DeleteJobsOnCompletion {
    OnSuccess,
    Always,
    Never,
}

#[derive(Debug)]
pub struct AzureBatchConfig {
    pub base: BaseConfig,
    pub region: String,
    pub head_pool: Option<String>,
    pub auto_pool_mode: Option<bool>,
    pub forge: AzureForgeConfig,
    pub token_duration: Option<String>,
    pub delete_jobs_on_completion: DeleteJobsOnCompletion,
    pub delete_pools_on_completion: bool,
    pub wave_enabled: bool,
    pub fusion2_enabled: bool,
    pub managed_identity_client_id: Option<String>,
}

#[derive(Debug)]
pub struct BaseGridConfig {
    pub base: BaseConfig,
    pub launch_dir: String,
    pub user_name: String,
    pub host_name: String,
    pub port: i32,
    pub head_queue: String,
    pub compute_queue: String,
    pub max_queue_size: i32,
    pub head_job_options: String,
    pub propagate_head_job_options: bool,
}

#[derive(Debug)]
pub struct LsfConfig {
    pub base: BaseGridConfig,
    pub unit_for_limits: String,
    pub per_job_mem_limit: bool,
    pub per_task_reserve: bool,
}

#[derive(Debug)]
pub struct SlurmConfig {
    pub base: BaseGridConfig,
}

#[derive(Debug, Clone, Copy, PartialEq, Eq, Structural)]
pub enum PodCleanup {
    OnSuccess,
    Always,
    Never,
}

#[derive(Debug)]
pub struct BaseKubernetesConfig {
    pub base: BaseConfig,
    pub server: String,
    pub ssl_cert: String,
    pub namespace: String,
    pub compute_service_account: String,
    pub head_service_account: String,
    pub storage_claim_name: String,
    pub storage_mount_path: String,
    pub pod_cleanup: PodCleanup,
    pub head_pod_spec: String,
    pub service_pod_spec: String,
    pub head_job_cpus: i32,
    pub head_job_memory_mb: i32,
}

#[derive(Debug)]
pub struct KubernetesConfig {
    pub base: BaseKubernetesConfig,
}

#[derive(Debug)]
pub struct EksConfig {
    pub base: BaseKubernetesConfig,
    pub region: String,
    pub cluster_name: String,
    pub wave_enabled: bool,
    pub fusion2_enabled: bool,
}

#[derive(Debug)]
pub struct GkeConfig {
    pub base: BaseKubernetesConfig,
    pub region: String,
    pub cluster_name: String,
    pub fusion2_enabled: bool,
    pub wave_enabled: bool,
}

#[derive(Debug)]
pub struct UgeConfig {
    pub base: BaseGridConfig,
}

#[derive(Debug)]
pub struct AltairConfig {
    pub base: BaseGridConfig,
}

#[derive(Debug)]
pub struct MoabConfig {
    pub base: BaseGridConfig,
}

} // verus!
