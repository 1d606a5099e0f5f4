use vstd::prelude::*;
use crate::error::Error;
use crate::identifiers::{join, joined, views};
use crate::image::ImageBuilder;
use crate::render::{render_template, rendered, text_view, TemplateData};

verus! {

/// The image descriptor template for a root whose image runs its own init.
pub const DOCKERFILE: &'static str = "FROM {{base_image}}
{{#if multi_layer}}{{#each packages}}ADD {{../rootfs}}/hab/pkgs/{{this}} /hab/pkgs/{{this}}
{{/each}}{{/if}}ADD {{rootfs}} /
ENV {{#each environment}}{{@key}}={{{this}}} {{/each}}PATH={{{path}}}
LABEL sh.hab.package={{installed_primary_svc_ident}}
WORKDIR /
HEALTHCHECK --interval=5s --timeout=2s --retries=3 CMD {{hab_path}} svc status > /dev/null || exit 1
EXPOSE 9631 {{exposes}}
ENTRYPOINT [\"/init.sh\"]
CMD [\"run\", \"{{primary_svc_ident}}\"]
";

/// The image descriptor template for a root that relies on the platform's
/// own init.
pub const DOCKERFILE_NATIVE: &'static str = "FROM {{base_image}}
{{#if multi_layer}}{{#each packages}}ADD {{../rootfs}}/hab/pkgs/{{this}} /hab/pkgs/{{this}}
{{/each}}{{/if}}ADD {{rootfs}} /
ENV {{#each environment}}{{@key}}={{{this}}} {{/each}}PATH={{{path}}}
LABEL sh.hab.package={{installed_primary_svc_ident}}
EXPOSE 9631 {{exposes}}
ENTRYPOINT [\"{{hab_path}}\", \"sup\"]
CMD [\"run\", \"{{primary_svc_ident}}\"]
";

/// The startup script template.
pub const INIT_SH: &'static str = "#!{{busybox_shell}}
export PATH={{{path}}}
case \"$1\" in
  run|start) ;;
  *) exec \"$@\" ;;
esac
exec {{{sup_bin}}} \"$@\"
";

/// Which root preparation a target takes.
#[derive(Clone, Copy, Debug, PartialEq, Eq)]
pub enum Platform {
    /// The image starts through a generated startup script; users and
    /// groups are added to the root.
    ContainerInit,
    /// The image relies on the platform's own init.
    NativeInit,
}

/// What the staging of the root tree hands over: names, paths inside the
/// root, settings, and the packages in dependency order (dependencies
/// first).
pub struct BuildContext {
    pub rootfs_name: String,
    pub base_image: String,
    pub env_path: String,
    pub exposes: Vec<String>,
    pub multi_layer: bool,
    pub primary_svc_ident: String,
    pub installed_primary_svc_ident: String,
    pub channel: String,
    pub users: Vec<String>,
    pub groups: Vec<String>,
    pub environment: Vec<(String, String)>,
    pub packages: Vec<String>,
    pub hab_pkg_path: String,
    pub busybox_pkg_path: String,
    pub bin_path: String,
}

/// Each entry followed by a newline.
pub open spec fn entry_lines(entries: Seq<Seq<char>>) -> Seq<char>
    decreases entries.len(),
{
    if entries.len() == 0 {
        Seq::empty()
    } else {
        entry_lines(entries.drop_last()) + entries.last() + seq!['\n']
    }
}

/// The path with every backslash turned into a forward slash.
pub open spec fn forward_slashes(s: Seq<char>) -> Seq<char> {
    s.map_values(|c: char| if c == '\\' { '/' } else { c })
}

/// The text entries of the startup script.
pub open spec fn entrypoint_texts(ctx: &BuildContext) -> Seq<(Seq<char>, Seq<char>)> {
    seq![
        ("busybox_shell"@, ctx.busybox_pkg_path@ + "/bin/sh"@),
        ("path"@, ctx.env_path@),
        ("sup_bin"@, ctx.bin_path@ + "/hab sup"@),
        ("primary_svc_ident"@, ctx.primary_svc_ident@),
    ]
}

/// The text entries of the image descriptor.
pub open spec fn dockerfile_texts(ctx: &BuildContext) -> Seq<(Seq<char>, Seq<char>)> {
    seq![
        ("base_image"@, ctx.base_image@),
        ("rootfs"@, ctx.rootfs_name@),
        ("path"@, ctx.env_path@),
        ("hab_path"@, forward_slashes(ctx.hab_pkg_path@ + "/bin/hab"@)),
        ("exposes"@, joined(views(ctx.exposes@), " "@)),
        ("primary_svc_ident"@, ctx.primary_svc_ident@),
        ("installed_primary_svc_ident"@, ctx.installed_primary_svc_ident@),
    ]
}

/// The list entries of the image descriptor: the packages in the order
/// given, dependencies first.
pub open spec fn dockerfile_lists(ctx: &BuildContext) -> Seq<(Seq<char>, Seq<Seq<char>>)> {
    seq![("packages"@, views(ctx.packages@))]
}

/// The map entries of the image descriptor.
pub open spec fn dockerfile_maps(ctx: &BuildContext) -> Seq<(Seq<char>, Seq<(Seq<char>, Seq<char>)>)> {
    seq![("environment"@, ctx.environment@.map_values(|p: (String, String)| text_view(p)))]
}

/// The descriptor template of a platform.
pub open spec fn dockerfile_template(platform: Platform) -> Seq<char> {
    match platform {
        Platform::ContainerInit => DOCKERFILE@,
        Platform::NativeInit => DOCKERFILE_NATIVE@,
    }
}

/// What rendering the image descriptor yields.
pub open spec fn dockerfile_rendering(ctx: &BuildContext, platform: Platform) -> Option<Seq<char>> {
    rendered(
        dockerfile_template(platform),
        dockerfile_texts(ctx),
        seq![("multi_layer"@, ctx.multi_layer)],
        dockerfile_lists(ctx),
        dockerfile_maps(ctx),
    )
}

/// What rendering the startup script yields.
pub open spec fn entrypoint_rendering(ctx: &BuildContext) -> Option<Seq<char>> {
    rendered(INIT_SH@, entrypoint_texts(ctx), Seq::empty(), Seq::empty(), Seq::empty())
}

/// Each entry followed by a newline, as appended to a database file.
pub fn entry_text(entries: &Vec<String>) -> (r: String)
    ensures
        r@ == entry_lines(views(entries@)),
{
    let mut r = String::new();
    let mut i: usize = 0;
    while i < entries.len()
        invariant
            i <= entries@.len(),
            r@ == entry_lines(views(entries@.subrange(0, i as int))),
        decreases entries@.len() - i,
    {
        proof {
            let pre = views(entries@.subrange(0, i as int + 1));
            assert(pre.drop_last() =~= views(entries@.subrange(0, i as int)));
            assert(pre.last() == entries@[i as int]@);
        }
        r.append(entries[i].as_str());
        r.append("\n");
        proof {
            reveal_strlit("\n");
        }
        i = i + 1;
    }
    assert(entries@.subrange(0, i as int) =~= entries@);
    r
}

/// The path with every backslash turned into a forward slash.
pub fn to_forward_slashes(s: &str) -> (r: String)
    ensures
        r@ == forward_slashes(s@),
{
    let n = s.unicode_len();
    let mut r = String::new();
    let mut i: usize = 0;
    while i < n
        invariant
            n == s@.len(),
            i <= n,
            r@ == forward_slashes(s@.subrange(0, i as int)),
        decreases n - i,
    {
        let c = s.get_char(i);
        if c == '\\' {
            r.append("/");
            proof {
                reveal_strlit("/");
            }
        } else {
            let one = s.substring_char(i, i + 1);
            r.append(one);
        }
        i = i + 1;
        assert(r@ =~= forward_slashes(s@.subrange(0, i as int)));
    }
    assert(s@.subrange(0, n as int) =~= s@);
    r
}

/// A build root made ready for the image build: the context it came from,
/// its working directory, the preparation its platform takes, and the files
/// that preparation writes.
pub struct DockerBuildRoot {
    pub ctx: BuildContext,
    pub workdir: String,
    pub platform: Platform,
    /// Appended to the root's user database (`etc/passwd`).
    pub passwd_entries: String,
    /// Appended to the root's group database (`etc/group`).
    pub group_entries: String,
    /// The startup script (`init.sh` in the root, mode 0755), where the
    /// platform takes one.
    pub entrypoint: Option<String>,
    /// The image descriptor (`Dockerfile` in the working directory).
    pub dockerfile: String,
}

/// The user and group database entries, each with its newline.
pub fn add_users_and_groups(ctx: &BuildContext) -> (r: (String, String))
    ensures
        r.0@ == entry_lines(views(ctx.users@)),
        r.1@ == entry_lines(views(ctx.groups@)),
{
    (entry_text(&ctx.users), entry_text(&ctx.groups))
}

/// The data the startup script is rendered with.
pub fn entrypoint_data(ctx: &BuildContext) -> (r: TemplateData)
    ensures
        r.texts_view() == entrypoint_texts(ctx),
        r.flags_view() == Seq::<(Seq<char>, bool)>::empty(),
        r.lists_view() == Seq::<(Seq<char>, Seq<Seq<char>>)>::empty(),
        r.maps_view() == Seq::<(Seq<char>, Seq<(Seq<char>, Seq<char>)>)>::empty(),
{
    let mut shell = ctx.busybox_pkg_path.clone();
    shell.append("/bin/sh");
    let mut sup = ctx.bin_path.clone();
    sup.append("/hab sup");
    let texts = vec![
        (String::from_str("busybox_shell"), shell),
        (String::from_str("path"), ctx.env_path.clone()),
        (String::from_str("sup_bin"), sup),
        (String::from_str("primary_svc_ident"), ctx.primary_svc_ident.clone()),
    ];
    let r = TemplateData { texts, flags: Vec::new(), lists: Vec::new(), maps: Vec::new() };
    assert(r.texts_view() =~= entrypoint_texts(ctx));
    assert(r.flags_view() =~= Seq::empty());
    assert(r.lists_view() =~= Seq::empty());
    assert(r.maps_view() =~= Seq::empty());
    r
}

/// The startup script.
pub fn create_entrypoint(ctx: &BuildContext) -> (r: Result<String, Error>)
    ensures
        match entrypoint_rendering(ctx) {
            Some(t) => r is Ok && r->Ok_0@ == t,
            None => r matches Err(Error::TemplateRenderFailed(_)),
        },
{
    let data = entrypoint_data(ctx);
    match render_template(INIT_SH, &data) {
        Ok(s) => Ok(s),
        Err(e) => Err(Error::TemplateRenderFailed(e)),
    }
}

/// A copy of text pairs.
fn copy_pairs(v: &Vec<(String, String)>) -> (r: Vec<(String, String)>)
    ensures
        r@.map_values(|p: (String, String)| text_view(p)) == v@.map_values(
            |p: (String, String)| text_view(p),
        ),
{
    let mut r: Vec<(String, String)> = Vec::new();
    let mut i: usize = 0;
    while i < v.len()
        invariant
            i <= v@.len(),
            r@.len() == i,
            forall|j: int| 0 <= j < i ==> #[trigger] text_view(r@[j]) == text_view(v@[j]),
        decreases v@.len() - i,
    {
        let (a, b) = (v[i].0.clone(), v[i].1.clone());
        r.push((a, b));
        i = i + 1;
    }
    assert(r@.map_values(|p: (String, String)| text_view(p)) =~= v@.map_values(
        |p: (String, String)| text_view(p),
    ));
    r
}

/// The data the image descriptor is rendered with.
pub fn dockerfile_data(ctx: &BuildContext) -> (r: TemplateData)
    ensures
        r.texts_view() == dockerfile_texts(ctx),
        r.flags_view() == seq![("multi_layer"@, ctx.multi_layer)],
        r.lists_view() == dockerfile_lists(ctx),
        r.maps_view() == dockerfile_maps(ctx),
{
    let mut hab = ctx.hab_pkg_path.clone();
    hab.append("/bin/hab");
    let texts = vec![
        (String::from_str("base_image"), ctx.base_image.clone()),
        (String::from_str("rootfs"), ctx.rootfs_name.clone()),
        (String::from_str("path"), ctx.env_path.clone()),
        (String::from_str("hab_path"), to_forward_slashes(hab.as_str())),
        (String::from_str("exposes"), join(&ctx.exposes, " ")),
        (String::from_str("primary_svc_ident"), ctx.primary_svc_ident.clone()),
        (String::from_str("installed_primary_svc_ident"), ctx.installed_primary_svc_ident.clone()),
    ];
    let flags = vec![(String::from_str("multi_layer"), ctx.multi_layer)];
    let lists = vec![(String::from_str("packages"), ctx.packages.clone())];
    let maps = vec![(String::from_str("environment"), copy_pairs(&ctx.environment))];
    let r = TemplateData { texts, flags, lists, maps };
    assert(r.texts_view() =~= dockerfile_texts(ctx));
    assert(r.flags_view() =~= seq![("multi_layer"@, ctx.multi_layer)]);
    assert(r.lists_view() =~= dockerfile_lists(ctx));
    assert(r.maps_view() =~= dockerfile_maps(ctx));
    r
}

/// The image descriptor of a platform.
pub fn create_dockerfile(ctx: &BuildContext, platform: Platform) -> (r: Result<String, Error>)
    ensures
        match dockerfile_rendering(ctx, platform) {
            Some(t) => r is Ok && r->Ok_0@ == t,
            None => r matches Err(Error::TemplateRenderFailed(_)),
        },
{
    let data = dockerfile_data(ctx);
    let template = match platform {
        Platform::ContainerInit => DOCKERFILE,
        Platform::NativeInit => DOCKERFILE_NATIVE,
    };
    match render_template(template, &data) {
        Ok(s) => Ok(s),
        Err(e) => Err(Error::TemplateRenderFailed(e)),
    }
}

impl DockerBuildRoot {
    /// Prepares a staged root for its platform: with a container init,
    /// the user and group entries and the startup script, then the image
    /// descriptor; with a native init, the image descriptor alone.
    pub fn from_build_root(ctx: BuildContext, workdir: String, platform: Platform) -> (r: Result<
        DockerBuildRoot,
        Error,
    >)
        ensures
            platform == Platform::ContainerInit && entrypoint_rendering(&ctx) is None ==> (r matches Err(
                Error::TemplateRenderFailed(_),
            )),
            (platform == Platform::NativeInit || entrypoint_rendering(&ctx) is Some)
                && dockerfile_rendering(&ctx, platform) is None ==> (r matches Err(
                Error::TemplateRenderFailed(_),
            )),
            r is Ok <==> (platform == Platform::NativeInit || entrypoint_rendering(&ctx) is Some)
                && dockerfile_rendering(&ctx, platform) is Some,
            r matches Ok(root) ==> {
                &&& root.ctx == ctx
                &&& root.workdir == workdir
                &&& root.platform == platform
                &&& root.dockerfile@ == dockerfile_rendering(&ctx, platform)->0
                &&& platform == Platform::ContainerInit ==> {
                    &&& root.passwd_entries@ == entry_lines(views(ctx.users@))
                    &&& root.group_entries@ == entry_lines(views(ctx.groups@))
                    &&& root.entrypoint matches Some(e) && e@ == entrypoint_rendering(&ctx)->0
                }
                &&& platform == Platform::NativeInit ==> {
                    &&& root.passwd_entries@.len() == 0
                    &&& root.group_entries@.len() == 0
                    &&& root.entrypoint is None
                }
            },
    {
        let (passwd_entries, group_entries, entrypoint) = match platform {
            Platform::ContainerInit => {
                let (u, g) = add_users_and_groups(&ctx);
                let e = match create_entrypoint(&ctx) {
                    Ok(e) => e,
                    Err(err) => return Err(err),
                };
                (u, g, Some(e))
            },
            Platform::NativeInit => (String::new(), String::new(), None),
        };
        let dockerfile = match create_dockerfile(&ctx, platform) {
            Ok(d) => d,
            Err(err) => return Err(err),
        };
        Ok(DockerBuildRoot { ctx, workdir, platform, passwd_entries, group_entries, entrypoint, dockerfile })
    }

    /// Gives up the build root, handing back the working directory for its
    /// owner to remove.
    pub fn destroy(self) -> (r: String)
        ensures
            r == self.workdir,
    {
        self.workdir
    }

    /// A builder for the image of this root, named and tagged by the naming
    /// policy's answer, with the memory limit if one is given.
    pub fn export(&self, image_name: &str, tags: Vec<String>, memory: Option<&str>) -> (r: ImageBuilder)
        ensures
            r.workdir == self.workdir,
            r.name@ == image_name@,
            r.tags@ == tags@,
            match memory {
                Some(m) => r.memory is Some && r.memory->0@ == m@,
                None => r.memory is None,
            },
    {
        let mut builder = ImageBuilder::new(self.workdir.as_str(), image_name);
        let mut i: usize = 0;
        while i < tags.len()
            invariant
                i <= tags@.len(),
                builder.workdir@ == self.workdir@,
                builder.name@ == image_name@,
                builder.tags@ == tags@.subrange(0, i as int),
                builder.memory is None,
            decreases tags@.len() - i,
        {
            builder = builder.tag(tags[i].clone());
            i = i + 1;
            assert(builder.tags@ =~= tags@.subrange(0, i as int));
        }
        assert(tags@.subrange(0, i as int) =~= tags@);
        builder.workdir = self.workdir.clone();
        match memory {
            Some(m) => builder.memory(m),
            None => builder,
        }
    }
}

} // verus!
