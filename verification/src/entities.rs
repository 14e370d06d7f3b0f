//! Containers as the steps hold them.
use vstd::prelude::*;
use crate::resources::workload::Container;

verus! {

/// Anything that can be written as a container of a pod.
pub trait ContainerLike: Send + Sync {
    fn as_container(&self) -> Container;
}

/// The main container of a step: an image run under a name.
#[derive(Debug, Clone)]
pub struct MaestroContainer {
    pub image: String,
    pub name: String,
}

impl MaestroContainer {
    pub fn new(image: &str, name: &str) -> (r: Self)
        ensures
            r.image@ == image@,
            r.name@ == name@,
    {
        MaestroContainer { image: image.to_string(), name: name.to_string() }
    }

    /// The container: its name and image, and nothing else.
    pub fn to_container(&self) -> (r: Container)
        ensures
            r.name@ == self.name@,
            r.image matches Some(i) && i@ == self.image@,
            r.command is None,
            r.env is None,
            r.ports is None,
            r.resources is None,
            r.volume_mounts is None,
            r.liveness_probe is None,
            r.readiness_probe is None,
    {
        Container {
            name: self.name.clone(),
            image: Some(self.image.clone()),
            command: None,
            env: None,
            ports: None,
            resources: None,
            volume_mounts: None,
            liveness_probe: None,
            readiness_probe: None,
        }
    }
}

impl ContainerLike for MaestroContainer {
    /// The container: its name and image, and nothing else.
    fn as_container(&self) -> (r: Container)
        ensures
            r.name@ == self.name@,
            r.image matches Some(i) && i@ == self.image@,
            r.command is None,
            r.env is None,
            r.ports is None,
            r.resources is None,
            r.volume_mounts is None,
            r.liveness_probe is None,
            r.readiness_probe is None,
    {
        self.to_container()
    }
}

} // verus!
