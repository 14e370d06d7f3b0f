//! The settings that a workflow client runs with: the namespace it works in,
//! whether it only pretends to change the cluster, and its connection.
use vstd::prelude::*;
use crate::resources::meta::BuildError;

verus! {

/// The namespace a client works in when none is chosen.
pub open spec fn default_namespace() -> Seq<char> {
    "default"@
}

/// A configured workflow client.
pub struct MaestroClient {
    pub namespace: String,
    pub dry_run: bool,
    pub client: Option<kube::Client>,
}

impl MaestroClient {
    /// The namespace the client works in.
    pub fn namespace(&self) -> (r: &str)
        ensures
            r@ == self.namespace@,
    {
        self.namespace.as_str()
    }

    /// Whether the client only pretends to change the cluster.
    pub fn dry_run(&self) -> (r: bool)
        ensures
            r == self.dry_run,
    {
        self.dry_run
    }
}

/// The settings of a client under construction.
pub struct MaestroClientBuilder {
    pub namespace: Option<String>,
    pub dry_run: bool,
    pub client: Option<kube::Client>,
}

impl MaestroClientBuilder {
    /// No namespace chosen, changes made for real, and no connection.
    pub fn new() -> (r: Self)
        ensures
            r.namespace is None,
            !r.dry_run,
            r.client is None,
    {
        MaestroClientBuilder { namespace: None, dry_run: false, client: None }
    }

    pub fn with_namespace(self, namespace: &str) -> (r: Self)
        ensures
            r.namespace matches Some(n) && n@ == namespace@,
            r.dry_run == self.dry_run,
            r.client == self.client,
    {
        MaestroClientBuilder { namespace: Some(namespace.to_string()), ..self }
    }

    pub fn with_dry_run(self, dry_run: bool) -> (r: Self)
        ensures
            r == (MaestroClientBuilder { dry_run, ..self }),
    {
        MaestroClientBuilder { dry_run, ..self }
    }

    pub fn with_client(self, client: kube::Client) -> (r: Self)
        ensures
            r == (MaestroClientBuilder { client: Some(client), ..self }),
    {
        MaestroClientBuilder { client: Some(client), ..self }
    }

    /// The client; it always builds, in the namespace `default` when none
    /// was chosen.
    pub fn build(self) -> (r: Result<MaestroClient, BuildError>)
        ensures
            r matches Ok(c) && c.namespace@ == (match self.namespace {
                Some(n) => n@,
                None => default_namespace(),
            }) && c.dry_run == self.dry_run && c.client == self.client,
    {
        let MaestroClientBuilder { namespace, dry_run, client } = self;
        let namespace = match namespace {
            Some(n) => n,
            None => String::from_str("default"),
        };
        Ok(MaestroClient { namespace, dry_run, client })
    }
}

impl Default for MaestroClientBuilder {
    fn default() -> (r: Self)
        ensures
            r.namespace is None,
            !r.dry_run,
            r.client is None,
    {
        MaestroClientBuilder::new()
    }
}

} // verus!
