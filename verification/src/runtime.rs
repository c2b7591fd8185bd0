use vstd::prelude::*;

use crate::config::{RuntimeConfig, RuntimePreference};
use crate::error::Error;
use crate::text::{push_text, texts};
use crate::text::owned;

verus! {

/// The kind of build runtime that runs a job.
#[derive(Debug, Clone, Copy, PartialEq, Eq, Structural)]
pub enum RuntimeKind {
    Podman,
    Docker,
    HostNative,
}

/// A command to run for a job, with the job's directories and log file.
#[derive(Debug, Clone)]
pub struct RuntimeCommand {
    pub program: String,
    pub args: Vec<String>,
    pub source_root: String,
    pub output_root: String,
    pub log_path: String,
}

/// How a job's command ended.
#[derive(Debug, Clone)]
pub struct RuntimeExit {
    pub code: Option<i32>,
    pub canceled: bool,
}

/// What a container invocation is built from.
#[derive(Debug, Clone, Copy)]
pub struct ContainerCommandSpec<'a> {
    pub kind: RuntimeKind,
    pub image: &'a str,
    pub source_root: &'a str,
    pub output_root: &'a str,
    pub build_command: &'a [String],
    pub network_enabled: bool,
    pub memory_limit: Option<&'a str>,
    pub cpu_limit: Option<&'a str>,
}

/// Runs commands directly on the build host.
#[derive(Debug, Clone, Copy)]
pub struct HostNativeRuntime;

/// Runs commands in a Podman or Docker container.
#[derive(Debug, Clone)]
pub struct OciRuntime {
    pub kind: RuntimeKind,
    pub image: String,
    pub network_enabled: bool,
    pub memory_limit: Option<String>,
    pub cpu_limit: Option<String>,
}

pub open spec fn opt_text(o: Option<&str>) -> Option<Seq<char>> {
    match o {
        Some(s) => Some(s@),
        None => None,
    }
}

pub open spec fn opt_string_text(o: Option<String>) -> Option<Seq<char>> {
    match o {
        Some(s) => Some(s@),
        None => None,
    }
}

/// A bind-mount mode; Podman also relabels the mount for SELinux (`,Z`).
pub open spec fn mount_mode(kind: RuntimeKind, mode: Seq<char>) -> Seq<char> {
    if kind is Podman {
        mode + ",Z"@
    } else {
        mode
    }
}

/// The arguments of a `run` invocation of a container runtime: a removed-on-exit
/// container, with no network unless it is enabled, the given memory and CPU
/// limits, the source mounted read-only at `/src`, the output mounted
/// read-write at `/out`, `/src` as working directory, then the image and the
/// build command.
pub open spec fn container_args(
    kind: RuntimeKind,
    image: Seq<char>,
    source_root: Seq<char>,
    output_root: Seq<char>,
    build_command: Seq<Seq<char>>,
    network_enabled: bool,
    memory_limit: Option<Seq<char>>,
    cpu_limit: Option<Seq<char>>,
) -> Seq<Seq<char>> {
    seq!["run"@, "--rm"@] + (if network_enabled {
        Seq::empty()
    } else {
        seq!["--network=none"@]
    }) + (match memory_limit {
        Some(l) => seq!["--memory="@ + l],
        None => Seq::empty(),
    }) + (match cpu_limit {
        Some(l) => seq!["--cpus="@ + l],
        None => Seq::empty(),
    }) + seq![
        "-v"@,
        source_root + ":/src:"@ + mount_mode(kind, "ro"@),
        "-v"@,
        output_root + ":/out:"@ + mount_mode(kind, "rw"@),
        "-w"@,
        "/src"@,
        image,
    ] + build_command
}

/// The arguments for a container specification.
pub open spec fn spec_container_args(spec: ContainerCommandSpec) -> Seq<Seq<char>> {
    container_args(
        spec.kind,
        spec.image@,
        spec.source_root@,
        spec.output_root@,
        texts(spec.build_command@),
        spec.network_enabled,
        opt_text(spec.memory_limit),
        opt_text(spec.cpu_limit),
    )
}

fn joined(a: &str, b: &str) -> (r: String)
    ensures
        r@ == a@ + b@,
{
    let mut r = String::from_str(a);
    r.append(b);
    r
}

/// Chooses the runtime for a configuration. `executable_exists` answers
/// whether a program can be run; Podman is preferred to Docker when the
/// preference is `Auto`, and the host-native runtime is chosen only when it
/// is asked for.
pub fn detect_runtime(
    config: &RuntimeConfig,
    executable_exists: impl Fn(&str) -> bool,
) -> (r: Result<RuntimeKind, Error>)
    requires
        forall|p: &str| executable_exists.requires((p,)),
    ensures
        r == Ok::<RuntimeKind, Error>(RuntimeKind::HostNative) ==> config.preference
            == RuntimePreference::HostNative,
        config.preference == RuntimePreference::HostNative ==> r == Ok::<
            RuntimeKind,
            Error,
        >(RuntimeKind::HostNative),
        config.preference == RuntimePreference::Podman ==> ({
            ||| r == Ok::<RuntimeKind, Error>(RuntimeKind::Podman) && executable_exists.ensures(
                ("podman",),
                true,
            )
            ||| r matches Err(e) && e matches Error::Runtime(m) && m@
                == "podman was requested but not found"@ && executable_exists.ensures(
                ("podman",),
                false,
            )
        }),
        config.preference == RuntimePreference::Docker ==> ({
            ||| r == Ok::<RuntimeKind, Error>(RuntimeKind::Docker) && executable_exists.ensures(
                ("docker",),
                true,
            )
            ||| r matches Err(e) && e matches Error::Runtime(m) && m@
                == "docker was requested but not found"@ && executable_exists.ensures(
                ("docker",),
                false,
            )
        }),
        config.preference == RuntimePreference::Auto ==> ({
            ||| r == Ok::<RuntimeKind, Error>(RuntimeKind::Podman) && executable_exists.ensures(
                ("podman",),
                true,
            )
            ||| r == Ok::<RuntimeKind, Error>(RuntimeKind::Docker) && executable_exists.ensures(
                ("podman",),
                false,
            ) && executable_exists.ensures(("docker",), true)
            ||| r matches Err(e) && e matches Error::Runtime(m) && m@
                == "no usable container runtime found"@ && executable_exists.ensures(
                ("podman",),
                false,
            ) && executable_exists.ensures(("docker",), false)
        }),
{
    match config.preference {
        RuntimePreference::Podman => {
            if executable_exists("podman") {
                Ok(RuntimeKind::Podman)
            } else {
                Err(Error::Runtime(owned("podman was requested but not found")))
            }
        },
        RuntimePreference::Docker => {
            if executable_exists("docker") {
                Ok(RuntimeKind::Docker)
            } else {
                Err(Error::Runtime(owned("docker was requested but not found")))
            }
        },
        RuntimePreference::HostNative => Ok(RuntimeKind::HostNative),
        RuntimePreference::Auto => {
            if executable_exists("podman") {
                Ok(RuntimeKind::Podman)
            } else if executable_exists("docker") {
                Ok(RuntimeKind::Docker)
            } else {
                Err(Error::Runtime(owned("no usable container runtime found")))
            }
        },
    }
}

proof fn lemma_texts_add(a: Seq<String>, b: Seq<String>)
    ensures
        texts(a + b) == texts(a) + texts(b),
{
    assert(texts(a + b) =~= texts(a) + texts(b));
}

/// Appends copies of `items` to `args`.
fn append_texts(args: &mut Vec<String>, items: &[String])
    ensures
        texts(final(args)@) == texts(old(args)@) + texts(items@),
{
    let ghost start = texts(args@);
    let mut i: usize = 0;
    while i < items.len()
        invariant
            i <= items@.len(),
            texts(args@) == start + texts(items@).take(i as int),
        decreases items@.len() - i,
    {
        push_text(args, items[i].clone());
        i = i + 1;
        assert(texts(items@).take(i as int) =~= texts(items@).take(i - 1).push(items@[i - 1]@));
    }
    assert(texts(items@).take(i as int) =~= texts(items@));
}

/// The leading options: `run --rm`, the network switch and the limits.
fn leading_args(network_enabled: bool, memory_limit: Option<&str>, cpu_limit: Option<&str>) -> (args:
    Vec<String>)
    ensures
        texts(args@) == seq!["run"@, "--rm"@] + (if network_enabled {
            Seq::empty()
        } else {
            seq!["--network=none"@]
        }) + (match opt_text(memory_limit) {
            Some(l) => seq!["--memory="@ + l],
            None => Seq::empty(),
        }) + (match opt_text(cpu_limit) {
            Some(l) => seq!["--cpus="@ + l],
            None => Seq::empty(),
        }),
{
    let mut args: Vec<String> = Vec::new();
    push_text(&mut args, owned("run"));
    push_text(&mut args, owned("--rm"));
    let ghost head = seq!["run"@, "--rm"@];
    assert(texts(args@) =~= head);
    if !network_enabled {
        push_text(&mut args, owned("--network=none"));
    }
    let ghost net: Seq<Seq<char>> = if network_enabled {
        Seq::empty()
    } else {
        seq!["--network=none"@]
    };
    assert(texts(args@) =~= head + net);
    if let Some(limit) = memory_limit {
        push_text(&mut args, joined("--memory=", limit));
    }
    let ghost mem: Seq<Seq<char>> = match opt_text(memory_limit) {
        Some(l) => seq!["--memory="@ + l],
        None => Seq::empty(),
    };
    assert(texts(args@) =~= head + net + mem);
    if let Some(limit) = cpu_limit {
        push_text(&mut args, joined("--cpus=", limit));
    }
    let ghost cpu: Seq<Seq<char>> = match opt_text(cpu_limit) {
        Some(l) => seq!["--cpus="@ + l],
        None => Seq::empty(),
    };
    assert(texts(args@) =~= head + net + mem + cpu);
    args
}

/// `<dir><target><mode>`, with `,Z` added for Podman.
fn mount_arg(kind: RuntimeKind, dir: &str, target: &str, mode: &str) -> (m: String)
    ensures
        m@ == dir@ + target@ + mount_mode(kind, mode@),
{
    let mut m = joined(dir, target);
    m.append(mode);
    if kind == RuntimeKind::Podman {
        m.append(",Z");
    }
    m
}

/// The mounts, the working directory and the image.
fn mount_args(kind: RuntimeKind, image: &str, source_root: &str, output_root: &str) -> (args: Vec<
    String,
>)
    ensures
        texts(args@) == seq![
            "-v"@,
            source_root@ + ":/src:"@ + mount_mode(kind, "ro"@),
            "-v"@,
            output_root@ + ":/out:"@ + mount_mode(kind, "rw"@),
            "-w"@,
            "/src"@,
            image@,
        ],
{
    let mut args: Vec<String> = Vec::new();
    push_text(&mut args, owned("-v"));
    push_text(&mut args, mount_arg(kind, source_root, ":/src:", "ro"));
    push_text(&mut args, owned("-v"));
    push_text(&mut args, mount_arg(kind, output_root, ":/out:", "rw"));
    push_text(&mut args, owned("-w"));
    push_text(&mut args, owned("/src"));
    push_text(&mut args, owned(image));
    assert(texts(args@) =~= seq![
        "-v"@,
        source_root@ + ":/src:"@ + mount_mode(kind, "ro"@),
        "-v"@,
        output_root@ + ":/out:"@ + mount_mode(kind, "rw"@),
        "-w"@,
        "/src"@,
        image@,
    ]);
    args
}

/// The arguments of a container runtime's `run` command for a build; refused
/// for the host-native runtime.
pub fn container_command_args(spec: ContainerCommandSpec<'_>) -> (r: Result<Vec<String>, Error>)
    ensures
        r is Ok <==> spec.kind != RuntimeKind::HostNative,
        r matches Ok(args) ==> texts(args@) == spec_container_args(spec),
        r matches Err(e) ==> e matches Error::Runtime(m) && m@
            == "container args are not valid for host-native runtime"@,
{
    if spec.kind == RuntimeKind::HostNative {
        return Err(Error::Runtime(owned("container args are not valid for host-native runtime")));
    }
    let mut args = leading_args(spec.network_enabled, spec.memory_limit, spec.cpu_limit);
    let mut mounts = mount_args(spec.kind, spec.image, spec.source_root, spec.output_root);
    proof {
        lemma_texts_add(args@, mounts@);
    }
    args.append(&mut mounts);
    append_texts(&mut args, spec.build_command);
    Ok(args)
}

/// Every container invocation starts a removed-on-exit container, runs
/// without network unless the network is enabled, and mounts the source
/// read-only at `/src` and the output read-write at `/out`.
pub proof fn container_isolation(
    kind: RuntimeKind,
    image: Seq<char>,
    source_root: Seq<char>,
    output_root: Seq<char>,
    build_command: Seq<Seq<char>>,
    network_enabled: bool,
    memory_limit: Option<Seq<char>>,
    cpu_limit: Option<Seq<char>>,
)
    ensures
        ({
            let args = container_args(
                kind,
                image,
                source_root,
                output_root,
                build_command,
                network_enabled,
                memory_limit,
                cpu_limit,
            );
            &&& args[0] == "run"@ && args[1] == "--rm"@
            &&& !network_enabled ==> args.contains("--network=none"@)
            &&& args.contains(source_root + ":/src:"@ + mount_mode(kind, "ro"@))
            &&& args.contains(output_root + ":/out:"@ + mount_mode(kind, "rw"@))
        }),
{
    let net: Seq<Seq<char>> = if network_enabled {
        Seq::empty()
    } else {
        seq!["--network=none"@]
    };
    let mem: Seq<Seq<char>> = match memory_limit {
        Some(l) => seq!["--memory="@ + l],
        None => Seq::empty(),
    };
    let cpu: Seq<Seq<char>> = match cpu_limit {
        Some(l) => seq!["--cpus="@ + l],
        None => Seq::empty(),
    };
    let mounts = seq![
        "-v"@,
        source_root + ":/src:"@ + mount_mode(kind, "ro"@),
        "-v"@,
        output_root + ":/out:"@ + mount_mode(kind, "rw"@),
        "-w"@,
        "/src"@,
        image,
    ];
    let args = seq!["run"@, "--rm"@] + net + mem + cpu + mounts + build_command;
    let k: int = (2 + net.len() + mem.len() + cpu.len()) as int;
    assert(args[k + 1] == mounts[1]);
    assert(args[k + 3] == mounts[3]);
    if !network_enabled {
        assert(args[2] == "--network=none"@);
    }
}

/// The name of the program for a container runtime.
pub open spec fn oci_program(kind: RuntimeKind) -> Seq<char> {
    if kind is Podman {
        "podman"@
    } else {
        "docker"@
    }
}

/// Each container runtime is launched by its own program: Docker by
/// `docker` and Podman by `podman`.
pub proof fn container_runtime_programs()
    ensures
        oci_program(RuntimeKind::Docker) == "docker"@,
        oci_program(RuntimeKind::Podman) == "podman"@,
        oci_program(RuntimeKind::Docker) != oci_program(RuntimeKind::Podman),
{
    reveal_strlit("docker");
    reveal_strlit("podman");
    assert("docker"@[0] != "podman"@[0]);
}

impl OciRuntime {
    /// A container runtime of the given kind with the configured image,
    /// network switch and limits.
    pub fn for_kind(kind: RuntimeKind, config: &RuntimeConfig) -> (r: Self)
        ensures
            r.kind == kind,
            r.image == config.default_image,
            r.network_enabled == config.network_enabled,
            r.memory_limit == config.memory_limit,
            r.cpu_limit == config.cpu_limit,
    {
        OciRuntime {
            kind,
            image: config.default_image.clone(),
            network_enabled: config.network_enabled,
            memory_limit: match &config.memory_limit {
                Some(l) => Some(l.clone()),
                None => None,
            },
            cpu_limit: match &config.cpu_limit {
                Some(l) => Some(l.clone()),
                None => None,
            },
        }
    }

    /// The program and arguments that run a job's command in a container: the
    /// job's source and output directories are mounted, and the command is
    /// the job's program followed by its arguments.
    pub fn invocation(&self, command: &RuntimeCommand) -> (r: Result<(String, Vec<String>), Error>)
        ensures
            r is Ok <==> self.kind != RuntimeKind::HostNative,
            r matches Ok(inv) ==> inv.0@ == oci_program(self.kind) && texts(inv.1@)
                == container_args(
                self.kind,
                self.image@,
                command.source_root@,
                command.output_root@,
                seq![command.program@] + texts(command.args@),
                self.network_enabled,
                opt_string_text(self.memory_limit),
                opt_string_text(self.cpu_limit),
            ),
            r matches Err(e) ==> e matches Error::Runtime(m) && m@ == "invalid OCI runtime kind"@,
    {
        let program = match self.kind {
            RuntimeKind::Podman => owned("podman"),
            RuntimeKind::Docker => owned("docker"),
            RuntimeKind::HostNative => {
                return Err(Error::Runtime(owned("invalid OCI runtime kind")));
            },
        };
        let mut build_command: Vec<String> = Vec::new();
        push_text(&mut build_command, command.program.clone());
        let mut i: usize = 0;
        while i < command.args.len()
            invariant
                i <= command.args@.len(),
                texts(build_command@) == seq![command.program@] + texts(command.args@).take(
                    i as int,
                ),
            decreases command.args@.len() - i,
        {
            push_text(&mut build_command, command.args[i].clone());
            i = i + 1;
            assert(texts(command.args@).take(i as int) =~= texts(command.args@).take(i - 1).push(
                command.args@[i - 1]@,
            ));
        }
        assert(texts(command.args@).take(i as int) =~= texts(command.args@));
        let memory_limit = match &self.memory_limit {
            Some(l) => Some(l.as_str()),
            None => None,
        };
        let cpu_limit = match &self.cpu_limit {
            Some(l) => Some(l.as_str()),
            None => None,
        };
        let args = container_command_args(
            ContainerCommandSpec {
                kind: self.kind,
                image: self.image.as_str(),
                source_root: command.source_root.as_str(),
                output_root: command.output_root.as_str(),
                build_command: build_command.as_slice(),
                network_enabled: self.network_enabled,
                memory_limit,
                cpu_limit,
            },
        )?;
        Ok((program, args))
    }
}

} // verus!
