//! Security settings for pods and containers, with the usual presets.
use vstd::prelude::*;
use crate::collections::views;
use crate::resources::security::{Capabilities, PodSecurityContext, SeccompProfile, SecurityContext};

verus! {

/// Security settings shared by pod and container contexts.
#[derive(Debug, Clone)]
pub struct SecurityContextConfig {
    pub run_as_user: Option<i64>,
    pub run_as_group: Option<i64>,
    pub run_as_non_root: Option<bool>,
    pub read_only_root_filesystem: Option<bool>,
    pub allow_privilege_escalation: Option<bool>,
    pub privileged: Option<bool>,
    pub capabilities_add: Vec<String>,
    pub capabilities_drop: Vec<String>,
    pub seccomp_profile_type: Option<String>,
    pub fs_group: Option<i64>,
    pub fs_group_change_policy: Option<String>,
    pub supplemental_groups: Vec<i64>,
}

/// `c` sets nothing.
pub open spec fn config_is_empty(c: SecurityContextConfig) -> bool {
    &&& c.run_as_user is None
    &&& c.run_as_group is None
    &&& c.run_as_non_root is None
    &&& c.read_only_root_filesystem is None
    &&& c.allow_privilege_escalation is None
    &&& c.privileged is None
    &&& c.capabilities_add@.len() == 0
    &&& c.capabilities_drop@.len() == 0
    &&& c.seccomp_profile_type is None
    &&& c.fs_group is None
    &&& c.fs_group_change_policy is None
    &&& c.supplemental_groups@.len() == 0
}

impl SecurityContextConfig {
    /// Settings that set nothing.
    pub fn new() -> (r: Self)
        ensures
            config_is_empty(r),
    {
        SecurityContextConfig {
            run_as_user: None,
            run_as_group: None,
            run_as_non_root: None,
            read_only_root_filesystem: None,
            allow_privilege_escalation: None,
            privileged: None,
            capabilities_add: Vec::new(),
            capabilities_drop: Vec::new(),
            seccomp_profile_type: None,
            fs_group: None,
            fs_group_change_policy: None,
            supplemental_groups: Vec::new(),
        }
    }

    pub fn with_run_as_user(self, user: i64) -> (r: Self)
        ensures
            r == (SecurityContextConfig { run_as_user: Some(user), ..self }),
    {
        SecurityContextConfig { run_as_user: Some(user), ..self }
    }

    pub fn with_run_as_group(self, group: i64) -> (r: Self)
        ensures
            r == (SecurityContextConfig { run_as_group: Some(group), ..self }),
    {
        SecurityContextConfig { run_as_group: Some(group), ..self }
    }

    pub fn with_run_as_non_root(self, non_root: bool) -> (r: Self)
        ensures
            r == (SecurityContextConfig { run_as_non_root: Some(non_root), ..self }),
    {
        SecurityContextConfig { run_as_non_root: Some(non_root), ..self }
    }

    pub fn with_read_only_root_filesystem(self, read_only: bool) -> (r: Self)
        ensures
            r == (SecurityContextConfig { read_only_root_filesystem: Some(read_only), ..self }),
    {
        SecurityContextConfig { read_only_root_filesystem: Some(read_only), ..self }
    }

    pub fn with_allow_privilege_escalation(self, allow: bool) -> (r: Self)
        ensures
            r == (SecurityContextConfig { allow_privilege_escalation: Some(allow), ..self }),
    {
        SecurityContextConfig { allow_privilege_escalation: Some(allow), ..self }
    }

    pub fn with_privileged(self, privileged: bool) -> (r: Self)
        ensures
            r == (SecurityContextConfig { privileged: Some(privileged), ..self }),
    {
        SecurityContextConfig { privileged: Some(privileged), ..self }
    }

    /// Adds a capability to grant.
    pub fn add_capability(self, cap: &str) -> (r: Self)
        ensures
            views(r.capabilities_add@) == views(self.capabilities_add@).push(cap@),
            r == (SecurityContextConfig { capabilities_add: r.capabilities_add, ..self }),
    {
        let mut s = self;
        s.capabilities_add.push(cap.to_string());
        assert(views(s.capabilities_add@) =~= views(self.capabilities_add@).push(cap@));
        s
    }

    /// Adds a capability to drop.
    pub fn drop_capability(self, cap: &str) -> (r: Self)
        ensures
            views(r.capabilities_drop@) == views(self.capabilities_drop@).push(cap@),
            r == (SecurityContextConfig { capabilities_drop: r.capabilities_drop, ..self }),
    {
        let mut s = self;
        s.capabilities_drop.push(cap.to_string());
        assert(views(s.capabilities_drop@) =~= views(self.capabilities_drop@).push(cap@));
        s
    }

    pub fn with_seccomp_profile(self, profile_type: &str) -> (r: Self)
        ensures
            r.seccomp_profile_type matches Some(p) && p@ == profile_type@,
            r == (SecurityContextConfig { seccomp_profile_type: r.seccomp_profile_type, ..self }),
    {
        SecurityContextConfig { seccomp_profile_type: Some(profile_type.to_string()), ..self }
    }

    pub fn with_fs_group(self, group: i64) -> (r: Self)
        ensures
            r == (SecurityContextConfig { fs_group: Some(group), ..self }),
    {
        SecurityContextConfig { fs_group: Some(group), ..self }
    }

    pub fn with_fs_group_change_policy(self, policy: &str) -> (r: Self)
        ensures
            r.fs_group_change_policy matches Some(p) && p@ == policy@,
            r == (SecurityContextConfig { fs_group_change_policy: r.fs_group_change_policy, ..self }),
    {
        SecurityContextConfig { fs_group_change_policy: Some(policy.to_string()), ..self }
    }

    pub fn with_supplemental_groups(self, groups: Vec<i64>) -> (r: Self)
        ensures
            r == (SecurityContextConfig { supplemental_groups: groups, ..self }),
    {
        SecurityContextConfig { supplemental_groups: groups, ..self }
    }

    /// The restricted preset: non-root, no privilege escalation, read-only
    /// root filesystem, every capability dropped, the runtime's default
    /// seccomp profile.
    pub fn restricted() -> (r: Self)
        ensures
            r.run_as_non_root == Some(true),
            r.allow_privilege_escalation == Some(false),
            r.read_only_root_filesystem == Some(true),
            views(r.capabilities_drop@) == seq!["ALL"@],
            r.seccomp_profile_type matches Some(p) && p@ == "RuntimeDefault"@,
            r.run_as_user is None,
            r.run_as_group is None,
            r.privileged is None,
            r.capabilities_add@.len() == 0,
            r.fs_group is None,
            r.fs_group_change_policy is None,
            r.supplemental_groups@.len() == 0,
    {
        let r = Self::new().with_run_as_non_root(true).with_allow_privilege_escalation(
            false,
        ).with_read_only_root_filesystem(true).drop_capability("ALL").with_seccomp_profile(
            "RuntimeDefault",
        );
        assert(views(r.capabilities_drop@) =~= seq!["ALL"@]);
        r
    }

    /// The baseline preset: non-root, no privilege escalation, raw network
    /// access dropped.
    pub fn baseline() -> (r: Self)
        ensures
            r.run_as_non_root == Some(true),
            r.allow_privilege_escalation == Some(false),
            views(r.capabilities_drop@) == seq!["NET_RAW"@],
            r.run_as_user is None,
            r.run_as_group is None,
            r.read_only_root_filesystem is None,
            r.privileged is None,
            r.capabilities_add@.len() == 0,
            r.seccomp_profile_type is None,
            r.fs_group is None,
            r.fs_group_change_policy is None,
            r.supplemental_groups@.len() == 0,
    {
        let r = Self::new().with_run_as_non_root(true).with_allow_privilege_escalation(
            false,
        ).drop_capability("NET_RAW");
        assert(views(r.capabilities_drop@) =~= seq!["NET_RAW"@]);
        r
    }

    /// The privileged preset: privileged, with privilege escalation allowed.
    pub fn privileged() -> (r: Self)
        ensures
            r == (SecurityContextConfig {
                privileged: Some(true),
                allow_privilege_escalation: Some(true),
                ..r
            }),
            config_is_empty(
                SecurityContextConfig { privileged: None, allow_privilege_escalation: None, ..r },
            ),
    {
        Self::new().with_privileged(true).with_allow_privilege_escalation(true)
    }
}

impl Default for SecurityContextConfig {
    fn default() -> (r: Self)
        ensures
            config_is_empty(r),
    {
        SecurityContextConfig::new()
    }
}

/// The settings of a pod's security context under construction.
#[derive(Debug)]
pub struct PodSecurityContextBuilder {
    pub fs_group: Option<i64>,
    pub fs_group_change_policy: Option<String>,
    pub supplemental_groups: Vec<i64>,
    pub run_as_user: Option<i64>,
    pub run_as_group: Option<i64>,
    pub run_as_non_root: Option<bool>,
    pub seccomp_profile_type: Option<String>,
}

/// The seccomp profile of a type name, if there is one.
pub open spec fn seccomp_from(built: Option<SeccompProfile>, profile_type: Option<String>) -> bool {
    match profile_type {
        None => built is None,
        Some(t) => built == Some(SeccompProfile { type_: t, localhost_profile: None }),
    }
}

impl PodSecurityContextBuilder {
    /// No setting made yet.
    pub fn new() -> (r: Self)
        ensures
            r.fs_group is None,
            r.fs_group_change_policy is None,
            r.supplemental_groups@.len() == 0,
            r.run_as_user is None,
            r.run_as_group is None,
            r.run_as_non_root is None,
            r.seccomp_profile_type is None,
    {
        PodSecurityContextBuilder {
            fs_group: None,
            fs_group_change_policy: None,
            supplemental_groups: Vec::new(),
            run_as_user: None,
            run_as_group: None,
            run_as_non_root: None,
            seccomp_profile_type: None,
        }
    }

    pub fn with_fs_group(self, group: i64) -> (r: Self)
        ensures
            r == (PodSecurityContextBuilder { fs_group: Some(group), ..self }),
    {
        PodSecurityContextBuilder { fs_group: Some(group), ..self }
    }

    pub fn with_fs_group_change_policy(self, policy: &str) -> (r: Self)
        ensures
            r.fs_group_change_policy matches Some(p) && p@ == policy@,
            r == (PodSecurityContextBuilder { fs_group_change_policy: r.fs_group_change_policy, ..self }),
    {
        PodSecurityContextBuilder { fs_group_change_policy: Some(policy.to_string()), ..self }
    }

    pub fn with_supplemental_groups(self, groups: Vec<i64>) -> (r: Self)
        ensures
            r == (PodSecurityContextBuilder { supplemental_groups: groups, ..self }),
    {
        PodSecurityContextBuilder { supplemental_groups: groups, ..self }
    }

    pub fn with_run_as_user(self, user: i64) -> (r: Self)
        ensures
            r == (PodSecurityContextBuilder { run_as_user: Some(user), ..self }),
    {
        PodSecurityContextBuilder { run_as_user: Some(user), ..self }
    }

    pub fn with_run_as_group(self, group: i64) -> (r: Self)
        ensures
            r == (PodSecurityContextBuilder { run_as_group: Some(group), ..self }),
    {
        PodSecurityContextBuilder { run_as_group: Some(group), ..self }
    }

    pub fn with_run_as_non_root(self, non_root: bool) -> (r: Self)
        ensures
            r == (PodSecurityContextBuilder { run_as_non_root: Some(non_root), ..self }),
    {
        PodSecurityContextBuilder { run_as_non_root: Some(non_root), ..self }
    }

    pub fn with_seccomp_profile(self, profile_type: &str) -> (r: Self)
        ensures
            r.seccomp_profile_type matches Some(p) && p@ == profile_type@,
            r == (PodSecurityContextBuilder { seccomp_profile_type: r.seccomp_profile_type, ..self }),
    {
        PodSecurityContextBuilder { seccomp_profile_type: Some(profile_type.to_string()), ..self }
    }

    /// The pod security context; no supplemental group is written as none.
    pub fn build(self) -> (r: PodSecurityContext)
        ensures
            r.fs_group == self.fs_group,
            r.fs_group_change_policy == self.fs_group_change_policy,
            self.supplemental_groups@.len() == 0 ==> r.supplemental_groups is None,
            self.supplemental_groups@.len() > 0 ==> r.supplemental_groups == Some(
                self.supplemental_groups,
            ),
            r.run_as_user == self.run_as_user,
            r.run_as_group == self.run_as_group,
            r.run_as_non_root == self.run_as_non_root,
            seccomp_from(r.seccomp_profile, self.seccomp_profile_type),
    {
        let PodSecurityContextBuilder {
            fs_group,
            fs_group_change_policy,
            supplemental_groups,
            run_as_user,
            run_as_group,
            run_as_non_root,
            seccomp_profile_type,
        } = self;
        let groups = if supplemental_groups.len() == 0 {
            None
        } else {
            Some(supplemental_groups)
        };
        let seccomp_profile = match seccomp_profile_type {
            None => None,
            Some(t) => Some(SeccompProfile { type_: t, localhost_profile: None }),
        };
        PodSecurityContext {
            fs_group,
            fs_group_change_policy,
            supplemental_groups: groups,
            run_as_user,
            run_as_group,
            run_as_non_root,
            seccomp_profile,
        }
    }

    /// Settings taken from `config`, with defaults where it is silent: file
    /// system group 0 changed on root mismatch, user and group 0, non-root,
    /// the runtime's default seccomp profile.
    pub fn from_config(config: &SecurityContextConfig) -> (r: Self)
        ensures
            r.fs_group == Some(config.fs_group.unwrap_or(0)),
            r.fs_group_change_policy matches Some(p) && p@ == (match config.fs_group_change_policy {
                Some(q) => q@,
                None => "OnRootMismatch"@,
            }),
            r.supplemental_groups@ == config.supplemental_groups@,
            r.run_as_user == Some(config.run_as_user.unwrap_or(0)),
            r.run_as_group == Some(config.run_as_group.unwrap_or(0)),
            r.run_as_non_root == Some(config.run_as_non_root.unwrap_or(true)),
            r.seccomp_profile_type matches Some(p) && p@ == (match config.seccomp_profile_type {
                Some(q) => q@,
                None => "RuntimeDefault"@,
            }),
    {
        let policy: &str = match &config.fs_group_change_policy {
            Some(p) => p.as_str(),
            None => "OnRootMismatch",
        };
        let profile: &str = match &config.seccomp_profile_type {
            Some(p) => p.as_str(),
            None => "RuntimeDefault",
        };
        let groups = config.supplemental_groups.clone();
        assert(groups@ =~= config.supplemental_groups@);
        Self::new().with_fs_group(
            match config.fs_group {
                Some(g) => g,
                None => 0,
            },
        ).with_fs_group_change_policy(policy).with_supplemental_groups(groups).with_run_as_user(
            match config.run_as_user {
                Some(u) => u,
                None => 0,
            },
        ).with_run_as_group(
            match config.run_as_group {
                Some(g) => g,
                None => 0,
            },
        ).with_run_as_non_root(
            match config.run_as_non_root {
                Some(b) => b,
                None => true,
            },
        ).with_seccomp_profile(profile)
    }
}

impl Default for PodSecurityContextBuilder {
    fn default() -> (r: Self)
        ensures
            r.fs_group is None,
            r.fs_group_change_policy is None,
            r.supplemental_groups@.len() == 0,
            r.run_as_user is None,
            r.run_as_group is None,
            r.run_as_non_root is None,
            r.seccomp_profile_type is None,
    {
        PodSecurityContextBuilder::new()
    }
}

/// The settings of a container's security context under construction.
#[derive(Debug)]
pub struct ContainerSecurityContextBuilder {
    pub run_as_user: Option<i64>,
    pub run_as_group: Option<i64>,
    pub run_as_non_root: Option<bool>,
    pub read_only_root_filesystem: Option<bool>,
    pub allow_privilege_escalation: Option<bool>,
    pub privileged: Option<bool>,
    pub capabilities_add: Vec<String>,
    pub capabilities_drop: Vec<String>,
    pub seccomp_profile_type: Option<String>,
}

/// The capabilities of a container: none when nothing is added or dropped;
/// otherwise each list, or none for an empty list.
pub open spec fn capabilities_from(built: Option<Capabilities>, add: Vec<String>, drop: Vec<String>) -> bool {
    if add@.len() == 0 && drop@.len() == 0 {
        built is None
    } else {
        built == Some(
            Capabilities {
                add: if add@.len() == 0 {
                    None
                } else {
                    Some(add)
                },
                drop: if drop@.len() == 0 {
                    None
                } else {
                    Some(drop)
                },
            },
        )
    }
}

impl ContainerSecurityContextBuilder {
    /// No setting made yet.
    pub fn new() -> (r: Self)
        ensures
            r.run_as_user is None,
            r.run_as_group is None,
            r.run_as_non_root is None,
            r.read_only_root_filesystem is None,
            r.allow_privilege_escalation is None,
            r.privileged is None,
            r.capabilities_add@.len() == 0,
            r.capabilities_drop@.len() == 0,
            r.seccomp_profile_type is None,
    {
        ContainerSecurityContextBuilder {
            run_as_user: None,
            run_as_group: None,
            run_as_non_root: None,
            read_only_root_filesystem: None,
            allow_privilege_escalation: None,
            privileged: None,
            capabilities_add: Vec::new(),
            capabilities_drop: Vec::new(),
            seccomp_profile_type: None,
        }
    }

    pub fn with_run_as_user(self, user: i64) -> (r: Self)
        ensures
            r == (ContainerSecurityContextBuilder { run_as_user: Some(user), ..self }),
    {
        ContainerSecurityContextBuilder { run_as_user: Some(user), ..self }
    }

    pub fn with_run_as_group(self, group: i64) -> (r: Self)
        ensures
            r == (ContainerSecurityContextBuilder { run_as_group: Some(group), ..self }),
    {
        ContainerSecurityContextBuilder { run_as_group: Some(group), ..self }
    }

    pub fn with_run_as_non_root(self, non_root: bool) -> (r: Self)
        ensures
            r == (ContainerSecurityContextBuilder { run_as_non_root: Some(non_root), ..self }),
    {
        ContainerSecurityContextBuilder { run_as_non_root: Some(non_root), ..self }
    }

    pub fn with_read_only_root_filesystem(self, read_only: bool) -> (r: Self)
        ensures
            r == (ContainerSecurityContextBuilder { read_only_root_filesystem: Some(read_only), ..self }),
    {
        ContainerSecurityContextBuilder { read_only_root_filesystem: Some(read_only), ..self }
    }

    pub fn with_allow_privilege_escalation(self, allow: bool) -> (r: Self)
        ensures
            r == (ContainerSecurityContextBuilder { allow_privilege_escalation: Some(allow), ..self }),
    {
        ContainerSecurityContextBuilder { allow_privilege_escalation: Some(allow), ..self }
    }

    pub fn with_privileged(self, privileged: bool) -> (r: Self)
        ensures
            r == (ContainerSecurityContextBuilder { privileged: Some(privileged), ..self }),
    {
        ContainerSecurityContextBuilder { privileged: Some(privileged), ..self }
    }

    /// Adds a capability to grant.
    pub fn add_capability(self, cap: &str) -> (r: Self)
        ensures
            views(r.capabilities_add@) == views(self.capabilities_add@).push(cap@),
            r == (ContainerSecurityContextBuilder { capabilities_add: r.capabilities_add, ..self }),
    {
        let mut s = self;
        s.capabilities_add.push(cap.to_string());
        assert(views(s.capabilities_add@) =~= views(self.capabilities_add@).push(cap@));
        s
    }

    /// Adds a capability to drop.
    pub fn drop_capability(self, cap: &str) -> (r: Self)
        ensures
            views(r.capabilities_drop@) == views(self.capabilities_drop@).push(cap@),
            r == (ContainerSecurityContextBuilder { capabilities_drop: r.capabilities_drop, ..self }),
    {
        let mut s = self;
        s.capabilities_drop.push(cap.to_string());
        assert(views(s.capabilities_drop@) =~= views(self.capabilities_drop@).push(cap@));
        s
    }

    pub fn with_seccomp_profile(self, profile_type: &str) -> (r: Self)
        ensures
            r.seccomp_profile_type matches Some(p) && p@ == profile_type@,
            r == (ContainerSecurityContextBuilder {
                seccomp_profile_type: r.seccomp_profile_type,
                ..self
            }),
    {
        ContainerSecurityContextBuilder { seccomp_profile_type: Some(profile_type.to_string()), ..self }
    }

    /// The container security context.
    pub fn build(self) -> (r: SecurityContext)
        ensures
            r.run_as_user == self.run_as_user,
            r.run_as_group == self.run_as_group,
            r.run_as_non_root == self.run_as_non_root,
            r.read_only_root_filesystem == self.read_only_root_filesystem,
            r.allow_privilege_escalation == self.allow_privilege_escalation,
            r.privileged == self.privileged,
            capabilities_from(r.capabilities, self.capabilities_add, self.capabilities_drop),
            seccomp_from(r.seccomp_profile, self.seccomp_profile_type),
    {
        let ContainerSecurityContextBuilder {
            run_as_user,
            run_as_group,
            run_as_non_root,
            read_only_root_filesystem,
            allow_privilege_escalation,
            privileged,
            capabilities_add,
            capabilities_drop,
            seccomp_profile_type,
        } = self;
        let capabilities = if capabilities_add.len() > 0 || capabilities_drop.len() > 0 {
            let add = if capabilities_add.len() == 0 {
                None
            } else {
                Some(capabilities_add)
            };
            let drop = if capabilities_drop.len() == 0 {
                None
            } else {
                Some(capabilities_drop)
            };
            Some(Capabilities { add, drop })
        } else {
            None
        };
        let seccomp_profile = match seccomp_profile_type {
            None => None,
            Some(t) => Some(SeccompProfile { type_: t, localhost_profile: None }),
        };
        SecurityContext {
            run_as_user,
            run_as_group,
            run_as_non_root,
            read_only_root_filesystem,
            allow_privilege_escalation,
            privileged,
            capabilities,
            seccomp_profile,
        }
    }

    /// Settings taken from `config`: each setting it makes, and its
    /// capabilities in order.
    pub fn from_config(config: &SecurityContextConfig) -> (r: Self)
        ensures
            r.run_as_user == config.run_as_user,
            r.run_as_group == config.run_as_group,
            r.run_as_non_root == config.run_as_non_root,
            r.read_only_root_filesystem == config.read_only_root_filesystem,
            r.allow_privilege_escalation == config.allow_privilege_escalation,
            r.privileged == config.privileged,
            views(r.capabilities_add@) == views(config.capabilities_add@),
            views(r.capabilities_drop@) == views(config.capabilities_drop@),
            match config.seccomp_profile_type {
                None => r.seccomp_profile_type is None,
                Some(p) => r.seccomp_profile_type matches Some(q) && q@ == p@,
            },
    {
        let mut builder = Self::new();
        match config.run_as_user {
            Some(u) => {
                builder = builder.with_run_as_user(u);
            },
            None => {},
        }
        match config.run_as_group {
            Some(g) => {
                builder = builder.with_run_as_group(g);
            },
            None => {},
        }
        match config.run_as_non_root {
            Some(b) => {
                builder = builder.with_run_as_non_root(b);
            },
            None => {},
        }
        match config.read_only_root_filesystem {
            Some(b) => {
                builder = builder.with_read_only_root_filesystem(b);
            },
            None => {},
        }
        match config.allow_privilege_escalation {
            Some(b) => {
                builder = builder.with_allow_privilege_escalation(b);
            },
            None => {},
        }
        match config.privileged {
            Some(b) => {
                builder = builder.with_privileged(b);
            },
            None => {},
        }
        let mut i: usize = 0;
        while i < config.capabilities_add.len()
            invariant
                i <= config.capabilities_add@.len(),
                views(builder.capabilities_add@) == views(config.capabilities_add@).take(i as int),
                builder.capabilities_drop@.len() == 0,
                builder.seccomp_profile_type is None,
                builder.run_as_user == config.run_as_user,
                builder.run_as_group == config.run_as_group,
                builder.run_as_non_root == config.run_as_non_root,
                builder.read_only_root_filesystem == config.read_only_root_filesystem,
                builder.allow_privilege_escalation == config.allow_privilege_escalation,
                builder.privileged == config.privileged,
            decreases config.capabilities_add@.len() - i,
        {
            builder = builder.add_capability(config.capabilities_add[i].as_str());
            assert(views(config.capabilities_add@).take(i + 1) =~= views(config.capabilities_add@).take(
                i as int,
            ).push(config.capabilities_add@[i as int]@));
            i = i + 1;
        }
        assert(views(config.capabilities_add@).take(config.capabilities_add@.len() as int) =~= views(
            config.capabilities_add@,
        ));
        let mut j: usize = 0;
        while j < config.capabilities_drop.len()
            invariant
                j <= config.capabilities_drop@.len(),
                views(builder.capabilities_drop@) == views(config.capabilities_drop@).take(j as int),
                views(builder.capabilities_add@) == views(config.capabilities_add@),
                builder.seccomp_profile_type is None,
                builder.run_as_user == config.run_as_user,
                builder.run_as_group == config.run_as_group,
                builder.run_as_non_root == config.run_as_non_root,
                builder.read_only_root_filesystem == config.read_only_root_filesystem,
                builder.allow_privilege_escalation == config.allow_privilege_escalation,
                builder.privileged == config.privileged,
            decreases config.capabilities_drop@.len() - j,
        {
            builder = builder.drop_capability(config.capabilities_drop[j].as_str());
            assert(views(config.capabilities_drop@).take(j + 1) =~= views(config.capabilities_drop@).take(
                j as int,
            ).push(config.capabilities_drop@[j as int]@));
            j = j + 1;
        }
        assert(views(config.capabilities_drop@).take(config.capabilities_drop@.len() as int) =~= views(
            config.capabilities_drop@,
        ));
        match &config.seccomp_profile_type {
            Some(p) => {
                builder = builder.with_seccomp_profile(p.as_str());
            },
            None => {},
        }
        builder
    }
}

impl Default for ContainerSecurityContextBuilder {
    fn default() -> (r: Self)
        ensures
            r.run_as_user is None,
            r.run_as_group is None,
            r.run_as_non_root is None,
            r.read_only_root_filesystem is None,
            r.allow_privilege_escalation is None,
            r.privileged is None,
            r.capabilities_add@.len() == 0,
            r.capabilities_drop@.len() == 0,
            r.seccomp_profile_type is None,
    {
        ContainerSecurityContextBuilder::new()
    }
}

} // verus!
