//! API models for CloudHub. Timestamps are microseconds since the Unix epoch;
//! free-form JSON values are held as their JSON text.
use vstd::prelude::*;

verus! {

/// Application model from CloudHub API.
#[derive(Debug, Clone)]
pub struct Application {
    /// Application name.
    pub name: String,
    /// Application domain.
    pub domain: String,
    /// Full domain (domain.cloudhub.io).
    pub full_domain: Option<String>,
    /// Application status.
    pub status: String,
    /// Worker configuration.
    pub workers: Workers,
    /// Runtime version.
    pub runtime_version: Option<String>,
    /// Mule version.
    pub mule_version: Option<String>,
    /// Region.
    pub region: Option<String>,
    /// Last update timestamp.
    pub last_update_date: Option<i64>,
    /// Creation timestamp.
    pub creation_date: Option<i64>,
    /// Environment name.
    pub environment: Option<String>,
    /// VPC ID.
    pub vpc_id: Option<String>,
    /// Static IPs enabled.
    pub static_ips_enabled: Option<bool>,
    /// Monitoring enabled.
    pub monitoring_enabled: Option<bool>,
    /// Monitoring auto-restart.
    pub monitoring_auto_restart: Option<bool>,
    /// Logging enabled.
    pub logging_enabled: Option<bool>,
    /// Persistent queues enabled.
    pub persistent_queues: Option<bool>,
    /// Object Store v2 enabled.
    pub object_store_v2: Option<bool>,
    /// Properties, as JSON text.
    pub properties: Option<String>,
    /// Secure properties.
    pub secure_properties: Option<Vec<String>>,
}

/// Worker configuration.
#[derive(Debug, Clone)]
pub struct Workers {
    /// Worker type (e.g., "Micro", "Small", "Medium").
    pub worker_type: String,
    /// Number of workers.
    pub quantity: u32,
}

/// Application log entry.
#[derive(Debug, Clone)]
pub struct LogEntry {
    /// Timestamp.
    pub timestamp: i64,
    /// Log level.
    pub level: String,
    /// Message.
    pub message: String,
    /// Application name.
    pub application_name: Option<String>,
    /// Worker ID.
    pub worker_id: Option<String>,
    /// Thread name.
    pub thread_name: Option<String>,
}

/// Deployment model.
#[derive(Debug, Clone)]
pub struct Deployment {
    /// Deployment ID.
    pub id: String,
    /// Application name.
    pub application_name: String,
    /// Status.
    pub status: String,
    /// Start time.
    pub start_time: Option<i64>,
    /// End time.
    pub end_time: Option<i64>,
    /// Deployment URL.
    pub deployment_url: Option<String>,
    /// Mule version.
    pub mule_version: Option<String>,
    /// Runtime version.
    pub runtime_version: Option<String>,
    /// Worker configuration.
    pub workers: Option<Workers>,
    /// Region.
    pub region: Option<String>,
}

/// Alert model.
#[derive(Debug, Clone)]
pub struct Alert {
    /// Alert ID.
    pub id: String,
    /// Alert name.
    pub name: String,
    /// Alert type.
    pub alert_type: String,
    /// Severity.
    pub severity: String,
    /// Application name.
    pub application_name: Option<String>,
    /// Message.
    pub message: String,
    /// Timestamp.
    pub timestamp: i64,
    /// Acknowledged.
    pub acknowledged: Option<bool>,
}

/// Instance model.
#[derive(Debug, Clone)]
pub struct Instance {
    /// Instance ID.
    pub id: String,
    /// Instance name.
    pub name: String,
    /// Status.
    pub status: String,
    /// IP address.
    pub ip_address: Option<String>,
    /// Status reason.
    pub status_reason: Option<String>,
}

/// Create application request.
#[derive(Debug, Clone)]
pub struct CreateApplicationRequest {
    /// Application name.
    pub name: String,
    /// Worker configuration.
    pub workers: Workers,
    /// Runtime version.
    pub runtime_version: Option<String>,
    /// Region.
    pub region: Option<String>,
    /// Properties, as JSON text.
    pub properties: Option<String>,
}

/// Update application request.
#[derive(Debug, Clone)]
pub struct UpdateApplicationRequest {
    /// Worker configuration.
    pub workers: Option<Workers>,
    /// Runtime version.
    pub runtime_version: Option<String>,
    /// Region.
    pub region: Option<String>,
    /// Monitoring enabled.
    pub monitoring_enabled: Option<bool>,
    /// Logging enabled.
    pub logging_enabled: Option<bool>,
    /// Properties, as JSON text.
    pub properties: Option<String>,
}

/// API response wrapper.
#[derive(Debug)]
pub struct ApiResponse<T> {
    /// The payload, when the server sent one.
    pub data: Option<T>,
    /// Total number of items.
    pub total: Option<u32>,
    /// Page number.
    pub page: Option<u32>,
    /// Page size.
    pub size: Option<u32>,
}

impl<T> ApiResponse<Vec<T>> {
    /// The listed items: the payload, or none when the server sent no payload.
    pub fn into_items(self) -> (items: Vec<T>)
        ensures
            items@ == (match self.data {
                Some(v) => v@,
                None => Seq::<T>::empty(),
            }),
    {
        match self.data {
            Some(v) => v,
            None => Vec::new(),
        }
    }
}

/// Status response from action endpoints.
#[derive(Debug)]
pub struct StatusResponse {
    /// The status the action reports.
    pub status: String,
    /// An optional explanation.
    pub message: Option<String>,
}

} // verus!
