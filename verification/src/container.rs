//! The description of the container that a session lives in.

use vstd::prelude::*;
use crate::text::push_text;

verus! {

/// A directory of the host that is visible inside the container.
#[derive(PartialEq, Eq, Debug)]
pub struct Mount {
    pub host_path: String,
    pub container_path: String,
    pub read_only: bool,
}

/// What the container is made from. It is built once, before the session
/// starts, and never changed.
#[derive(PartialEq, Eq, Debug)]
pub struct ContainerConfig {
    pub image: String,
    pub hostname: String,
    /// Whether the container's own process has a terminal.
    pub tty: bool,
    pub network_enabled: bool,
    pub privileged: bool,
    pub read_only_root: bool,
    pub mounts: Vec<Mount>,
    pub dns: Vec<String>,
}

/// The choices that the user has about the container.
#[derive(PartialEq, Eq, Debug)]
pub struct ContainerOptions {
    pub no_network: bool,
    pub privileged: bool,
    pub ro_root: bool,
    pub ro_cwd: bool,
    /// The directory of the host to mount as the work directory, if any.
    pub work_dir: Option<String>,
}

/// The view of [`Mount`]: the same value, with each text as its characters.
pub ghost struct MountView {
    pub host_path: Seq<char>,
    pub container_path: Seq<char>,
    pub read_only: bool,
}

/// The view of [`ContainerConfig`]: the same value, with each text as its characters.
pub ghost struct ConfigView {
    pub image: Seq<char>,
    pub hostname: Seq<char>,
    pub tty: bool,
    pub network_enabled: bool,
    pub privileged: bool,
    pub read_only_root: bool,
    pub mounts: Seq<MountView>,
    pub dns: Seq<Seq<char>>,
}

/// The view of [`ContainerOptions`]: the same value, with each text as its characters.
pub ghost struct OptionsView {
    pub no_network: bool,
    pub privileged: bool,
    pub ro_root: bool,
    pub ro_cwd: bool,
    pub work_dir: Option<Seq<char>>,
}

impl View for Mount {
    type V = MountView;

    open spec fn view(&self) -> MountView {
        MountView {
            host_path: self.host_path@,
            container_path: self.container_path@,
            read_only: self.read_only,
        }
    }
}

impl View for ContainerConfig {
    type V = ConfigView;

    open spec fn view(&self) -> ConfigView {
        ConfigView {
            image: self.image@,
            hostname: self.hostname@,
            tty: self.tty,
            network_enabled: self.network_enabled,
            privileged: self.privileged,
            read_only_root: self.read_only_root,
            mounts: Seq::new(self.mounts@.len(), |i: int| self.mounts@[i]@),
            dns: Seq::new(self.dns@.len(), |i: int| self.dns@[i]@),
        }
    }
}

impl View for ContainerOptions {
    type V = OptionsView;

    open spec fn view(&self) -> OptionsView {
        OptionsView {
            no_network: self.no_network,
            privileged: self.privileged,
            ro_root: self.ro_root,
            ro_cwd: self.ro_cwd,
            work_dir: match self.work_dir {
                Some(dir) => Some(dir@),
                None => None,
            },
        }
    }
}

/// The image that every session runs.
pub open spec fn image_reference() -> Seq<char> {
    "codeberg.org/land/tempsystem:latest"@
}

/// The host name inside the container.
pub open spec fn host_name() -> Seq<char> {
    "tempsystem"@
}

/// The home directory of the unprivileged user of the container.
pub open spec fn home_directory() -> Seq<char> {
    "/home/tempsystem"@
}

/// Where the work directory of the host appears inside the container.
pub open spec fn work_directory() -> Seq<char> {
    "/home/tempsystem/work"@
}

/// The name servers of the container.
pub open spec fn name_servers() -> Seq<Seq<char>> {
    seq!["1.1.1.1"@, "1.0.0.1"@]
}

/// The mounts for these options: the work directory, where one is given.
pub open spec fn mounts_of(o: OptionsView) -> Seq<MountView> {
    match o.work_dir {
        Some(dir) => seq![
            MountView { host_path: dir, container_path: work_directory(), read_only: o.ro_cwd },
        ],
        None => Seq::empty(),
    }
}

/// The container for these options.
pub open spec fn config_of(o: OptionsView) -> ConfigView {
    ConfigView {
        image: image_reference(),
        hostname: host_name(),
        tty: true,
        network_enabled: !o.no_network,
        privileged: o.privileged,
        read_only_root: o.ro_root,
        mounts: mounts_of(o),
        dns: name_servers(),
    }
}

/// How the engine is told of a mount: the two paths with a colon between
/// them, followed by `:ro` where the mount is read-only.
pub open spec fn bind_text(m: MountView) -> Seq<char> {
    m.host_path + ":"@ + m.container_path + if m.read_only {
        ":ro"@
    } else {
        Seq::empty()
    }
}

impl Mount {
    /// How the engine is told of this mount.
    pub fn bind(&self) -> (s: String)
        ensures
            s@ == bind_text(self@),
    {
        let mut s = String::new();
        push_text(&mut s, self.host_path.as_str());
        push_text(&mut s, ":");
        push_text(&mut s, self.container_path.as_str());
        if self.read_only {
            push_text(&mut s, ":ro");
        }
        assert(s@ =~= bind_text(self@));
        s
    }

}

impl Clone for Mount {
    fn clone(&self) -> (copy: Mount)
        ensures
            copy@ == self@,
    {
        Mount {
            host_path: self.host_path.clone(),
            container_path: self.container_path.clone(),
            read_only: self.read_only,
        }
    }
}

impl ContainerConfig {
    /// The container for these options.
    pub fn new(options: &ContainerOptions) -> (config: ContainerConfig)
        ensures
            config@ == config_of(options@),
    {
        let mut mounts: Vec<Mount> = Vec::new();
        match &options.work_dir {
            Some(dir) => {
                mounts.push(
                    Mount {
                        host_path: dir.clone(),
                        container_path: "/home/tempsystem/work".to_string(),
                        read_only: options.ro_cwd,
                    },
                );
            },
            None => {},
        }
        let mut dns: Vec<String> = Vec::new();
        dns.push("1.1.1.1".to_string());
        dns.push("1.0.0.1".to_string());
        let config = ContainerConfig {
            image: "codeberg.org/land/tempsystem:latest".to_string(),
            hostname: "tempsystem".to_string(),
            tty: true,
            network_enabled: !options.no_network,
            privileged: options.privileged,
            read_only_root: options.ro_root,
            mounts,
            dns,
        };
        assert(config@.mounts =~= mounts_of(options@));
        assert(config@.dns =~= name_servers());
        config
    }

    /// What the engine is told of the mounts, one text for each.
    pub fn binds(&self) -> (v: Vec<String>)
        ensures
            v@.len() == self@.mounts.len(),
            forall|i: int| 0 <= i < v@.len() ==> (#[trigger] v@[i])@ == bind_text(self@.mounts[i]),
    {
        let mut v: Vec<String> = Vec::new();
        let mut i: usize = 0;
        while i < self.mounts.len()
            invariant
                i <= self.mounts.len(),
                v@.len() == i,
                forall|k: int| 0 <= k < i ==> (#[trigger] v@[k])@ == bind_text(self@.mounts[k]),
            decreases self.mounts.len() - i,
        {
            v.push(self.mounts[i].bind());
            i += 1;
        }
        v
    }

}

impl Clone for ContainerConfig {
    fn clone(&self) -> (copy: ContainerConfig)
        ensures
            copy@ == self@,
    {
        let mut mounts: Vec<Mount> = Vec::new();
        let mut i: usize = 0;
        while i < self.mounts.len()
            invariant
                i <= self.mounts.len(),
                mounts@.len() == i,
                forall|k: int| 0 <= k < i ==> (#[trigger] mounts@[k])@ == self.mounts@[k]@,
            decreases self.mounts.len() - i,
        {
            mounts.push(self.mounts[i].clone());
            i += 1;
        }
        let mut dns: Vec<String> = Vec::new();
        let mut j: usize = 0;
        while j < self.dns.len()
            invariant
                j <= self.dns.len(),
                dns@.len() == j,
                forall|k: int| 0 <= k < j ==> (#[trigger] dns@[k])@ == self.dns@[k]@,
            decreases self.dns.len() - j,
        {
            dns.push(self.dns[j].clone());
            j += 1;
        }
        let copy = ContainerConfig {
            image: self.image.clone(),
            hostname: self.hostname.clone(),
            tty: self.tty,
            network_enabled: self.network_enabled,
            privileged: self.privileged,
            read_only_root: self.read_only_root,
            mounts,
            dns,
        };
        assert(copy@.mounts =~= self@.mounts);
        assert(copy@.dns =~= self@.dns);
        copy
    }
}

impl Clone for ContainerOptions {
    fn clone(&self) -> (copy: ContainerOptions)
        ensures
            copy@ == self@,
    {
        ContainerOptions {
            no_network: self.no_network,
            privileged: self.privileged,
            ro_root: self.ro_root,
            ro_cwd: self.ro_cwd,
            work_dir: match &self.work_dir {
                Some(dir) => Some(dir.clone()),
                None => None,
            },
        }
    }
}

} // verus!
