use vstd::prelude::*;
use crate::error::{Error, ExitStatus};
use crate::identifiers::{
    expanded,
    expanded_identifiers,
    join,
    joined,
    tagged,
    tagged_identifier,
    views,
};
use crate::render::{json_quoted, json_string, render_template, rendered, TemplateData};

verus! {

/// The registry used when no other is named.
pub const DEFAULT_REGISTRY: &'static str = "https://index.docker.io/v1/";

/// The template of the build report, an env-style file.
pub const BUILD_REPORT: &'static str = "id={{{id}}}\nname={{{name}}}\ntags={{{tags}}}\nname_tags={{{name_tags}}}\n";

/// The name of the build report file.
pub const BUILD_REPORT_FILE: &'static str = "last_docker_export.env";

/// The name of the registry authentication file.
pub const DOCKER_CONFIG_FILE: &'static str = "config.json";

/// A registry token.
pub struct Credentials {
    pub token: String,
}

/// `k` is where the first line of `s` ends: no newline before it, and a
/// newline or the end of `s` at it.
pub open spec fn is_line_end(s: Seq<char>, k: int) -> bool {
    &&& 0 <= k <= s.len()
    &&& forall|j: int| 0 <= j < k ==> s[j] != '\n'
    &&& (k == s.len() || s[k] == '\n')
}

/// The first line of an engine's output, as `str::lines` gives it: none for
/// empty output; otherwise the text up to the first newline, without the
/// carriage return of a CRLF ending.
pub open spec fn first_line(s: Seq<char>) -> Option<Seq<char>> {
    if s.len() == 0 {
        None
    } else {
        let k = choose|k: int| is_line_end(s, k);
        if 0 < k < s.len() && s[k - 1] == '\r' {
            Some(s.subrange(0, k - 1))
        } else {
            Some(s.subrange(0, k))
        }
    }
}

/// The first line of `s`, if any.
pub fn first_line_of(s: &str) -> (r: Option<String>)
    ensures
        match first_line(s@) {
            Some(l) => r is Some && r->0@ == l,
            None => r is None,
        },
{
    let n = s.unicode_len();
    if n == 0 {
        return None;
    }
    let mut i: usize = 0;
    while i < n && s.get_char(i) != '\n'
        invariant
            n == s@.len(),
            i <= n,
            forall|j: int| 0 <= j < i ==> s@[j] != '\n',
        decreases n - i,
    {
        i = i + 1;
    }
    proof {
        assert(is_line_end(s@, i as int));
        let k = choose|k: int| is_line_end(s@, k);
        if k < i {
            assert(s@[k] != '\n');
        } else if k > i {
            assert(s@[i as int] != '\n');
        }
        assert(k == i);
    }
    let end = if 0 < i && i < n && s.get_char(i - 1) == '\r' {
        i - 1
    } else {
        i
    };
    Some(String::from_str(s.substring_char(0, end)))
}

/// The flags `--tag <id>` for each address, in order.
pub open spec fn tag_flags(ids: Seq<Seq<char>>) -> Seq<Seq<char>>
    decreases ids.len(),
{
    if ids.len() == 0 {
        Seq::empty()
    } else {
        tag_flags(ids.drop_last()) + seq!["--tag"@, ids.last()]
    }
}

/// The arguments of the engine's build step: remove intermediate
/// containers always, the memory limit if set, one `--tag` per address, and
/// the working directory as context.
pub open spec fn build_args_of(
    name: Seq<char>,
    tags: Seq<Seq<char>>,
    memory: Option<Seq<char>>,
) -> Seq<Seq<char>> {
    seq!["build"@, "--force-rm"@] + match memory {
        Some(m) => seq!["--memory"@, m],
        None => Seq::empty(),
    } + tag_flags(expanded(name, tags)) + seq!["."@]
}

/// The address whose image id is queried after a build: the first tag's
/// address, or the bare name without tags.
pub open spec fn id_query_of(name: Seq<char>, tags: Seq<Seq<char>>) -> Seq<char> {
    if tags.len() > 0 {
        tagged(name, tags[0])
    } else {
        name
    }
}

/// A builder of a container image: a working directory, a name, tags in
/// the order added, and an optional memory limit.
pub struct ImageBuilder {
    pub workdir: String,
    pub name: String,
    pub tags: Vec<String>,
    pub memory: Option<String>,
}

impl ImageBuilder {
    pub open spec fn memory_view(&self) -> Option<Seq<char>> {
        match self.memory {
            Some(m) => Some(m@),
            None => None,
        }
    }

    /// A builder with no tags and no memory limit.
    pub fn new(workdir: &str, name: &str) -> (r: Self)
        ensures
            r.workdir@ == workdir@,
            r.name@ == name@,
            r.tags@.len() == 0,
            r.memory is None,
    {
        ImageBuilder {
            workdir: String::from_str(workdir),
            name: String::from_str(name),
            tags: Vec::new(),
            memory: None,
        }
    }

    /// Adds a tag after those already added.
    pub fn tag(self, tag: String) -> (r: Self)
        ensures
            r.tags@ == self.tags@.push(tag),
            r.workdir == self.workdir,
            r.name == self.name,
            r.memory == self.memory,
    {
        let mut b = self;
        b.tags.push(tag);
        b
    }

    /// Sets the memory limit of the build.
    pub fn memory(self, memory: &str) -> (r: Self)
        ensures
            r.memory is Some,
            r.memory->0@ == memory@,
            r.workdir == self.workdir,
            r.name == self.name,
            r.tags == self.tags,
    {
        let mut b = self;
        b.memory = Some(String::from_str(memory));
        b
    }

    /// Every address the image will be known by.
    pub fn identifiers(&self) -> (r: Vec<String>)
        ensures
            views(r@) == expanded(self.name@, views(self.tags@)),
    {
        expanded_identifiers(&self.name, &self.tags)
    }

    /// The arguments of the engine's build step, run in the working directory.
    pub fn build_args(&self) -> (r: Vec<String>)
        ensures
            views(r@) == build_args_of(self.name@, views(self.tags@), self.memory_view()),
    {
        let mut args: Vec<String> = Vec::new();
        args.push(String::from_str("build"));
        args.push(String::from_str("--force-rm"));
        match &self.memory {
            Some(m) => {
                args.push(String::from_str("--memory"));
                args.push(m.clone());
            },
            None => {},
        }
        let ghost head = views(args@);
        assert(head =~= seq!["build"@, "--force-rm"@] + match self.memory_view() {
            Some(m) => seq!["--memory"@, m],
            None => Seq::<Seq<char>>::empty(),
        });
        let ids = self.identifiers();
        let mut i: usize = 0;
        while i < ids.len()
            invariant
                i <= ids@.len(),
                views(args@) == head + tag_flags(views(ids@).subrange(0, i as int)),
            decreases ids@.len() - i,
        {
            let ghost before = views(args@);
            proof {
                let pre = views(ids@).subrange(0, i as int + 1);
                assert(pre.drop_last() =~= views(ids@).subrange(0, i as int));
                assert(pre.last() == ids@[i as int]@);
                assert(tag_flags(pre) == tag_flags(pre.drop_last()) + seq!["--tag"@, ids@[i as int]@]);
            }
            args.push(String::from_str("--tag"));
            args.push(ids[i].clone());
            proof {
                assert(views(args@) =~= before + seq!["--tag"@, ids@[i as int]@]);
                let pre = views(ids@).subrange(0, i as int + 1);
                assert(views(args@) =~= head + tag_flags(pre));
            }
            i = i + 1;
        }
        args.push(String::from_str("."));
        proof {
            assert(views(ids@).subrange(0, i as int) =~= views(ids@));
            assert(views(args@) =~= build_args_of(
                self.name@,
                views(self.tags@),
                self.memory_view(),
            ));
        }
        args
    }

    /// The address whose image id is queried after a successful build.
    pub fn id_query(&self) -> (r: String)
        ensures
            r@ == id_query_of(self.name@, views(self.tags@)),
    {
        if self.tags.len() > 0 {
            tagged_identifier(self.name.as_str(), self.tags[0].as_str())
        } else {
            self.name.clone()
        }
    }

    /// The image id in the engine's answer to the query for `image_tag`: its
    /// first line, or an error naming the address when there is none.
    pub fn image_id(&self, image_tag: &str, output: &str) -> (r: Result<String, Error>)
        ensures
            match first_line(output@) {
                Some(l) => r is Ok && r->Ok_0@ == l,
                None => (r matches Err(Error::DockerImageIdNotFound(t)) && t@ == image_tag@),
            },
    {
        match first_line_of(output) {
            Some(id) => Ok(id),
            None => Err(Error::DockerImageIdNotFound(String::from_str(image_tag))),
        }
    }

    /// The image this builder made, from the exit status of the build step
    /// and the engine's answer to the id query (consulted only after a
    /// successful build).
    pub fn build(self, status: ExitStatus, id_output: &str) -> (r: Result<DockerImage, Error>)
        ensures
            !status.spec_success() ==> (r matches Err(Error::BuildFailed(s)) && s == status),
            status.spec_success() ==> match first_line(id_output@) {
                Some(l) => (r matches Ok(img) && img.id@ == l && img.name == self.name
                    && img.tags == self.tags && img.workdir == self.workdir),
                None => (r matches Err(Error::DockerImageIdNotFound(t))
                    && t@ == id_query_of(self.name@, views(self.tags@))),
            },
    {
        if !status.success() {
            return Err(Error::BuildFailed(status));
        }
        let query = self.id_query();
        let id = self.image_id(query.as_str(), id_output);
        match id {
            Ok(id) => Ok(DockerImage { id, name: self.name, tags: self.tags, workdir: self.workdir }),
            Err(e) => Err(e),
        }
    }
}

/// The engine operation run once per address.
#[derive(Clone, Copy, Debug, PartialEq, Eq)]
pub enum EngineOp {
    Push,
    Remove,
}

/// The error for an unsuccessful run of `op`.
pub open spec fn op_error(op: EngineOp, status: ExitStatus) -> Error {
    match op {
        EngineOp::Push => Error::PushImageFailed(status),
        EngineOp::Remove => Error::RemoveImageFailed(status),
    }
}

/// A run of one engine operation over an image's addresses, in order,
/// that stops at the first failure and undoes nothing.
pub struct TagRun {
    pub op: EngineOp,
    pub ids: Vec<String>,
    pub completed: usize,
    pub failure: Option<ExitStatus>,
}

impl TagRun {
    /// The address to run next: the first one not yet completed, while no
    /// run has failed.
    pub open spec fn pending(&self) -> Option<Seq<char>> {
        if self.failure is None && self.completed < self.ids@.len() {
            Some(self.ids@[self.completed as int]@)
        } else {
            None
        }
    }

    /// The address to run next, if any.
    pub fn next(&self) -> (r: Option<String>)
        ensures
            match self.pending() {
                Some(id) => r is Some && r->0@ == id,
                None => r is None,
            },
    {
        if self.failure.is_none() && self.completed < self.ids.len() {
            Some(self.ids[self.completed].clone())
        } else {
            None
        }
    }

    /// Records how the run of the pending address ended: on success the
    /// next address becomes pending; on failure the run stops with the
    /// operation's error.
    pub fn record(&mut self, status: ExitStatus) -> (r: Result<(), Error>)
        requires
            old(self).pending() is Some,
        ensures
            final(self).op == old(self).op,
            final(self).ids == old(self).ids,
            status.spec_success() ==> r is Ok && final(self).completed == old(self).completed + 1
                && final(self).failure is None,
            !status.spec_success() ==> r == Err::<(), Error>(op_error(old(self).op, status))
                && final(self).completed == old(self).completed && final(self).failure == Some(
                status,
            ),
    {
        // The pending address lies inside the vector, so one more still fits.
        assert(self.completed < self.ids.len());
        if status.success() {
            self.completed = self.completed + 1;
            Ok(())
        } else {
            self.failure = Some(status);
            match self.op {
                EngineOp::Push => Err(Error::PushImageFailed(status)),
                EngineOp::Remove => Err(Error::RemoveImageFailed(status)),
            }
        }
    }
}

/// The registry authentication document for a registry and a token, both
/// already written as JSON strings.
pub open spec fn docker_config_of(registry_json: Seq<char>, token_json: Seq<char>) -> Seq<char> {
    "{\"auths\":{"@ + registry_json + ":{\"auth\":"@ + token_json + "}}}"@
}

/// Frames a registry and a token, written as JSON strings, into the
/// registry authentication document.
pub fn docker_config(registry_json: &str, token_json: &str) -> (r: String)
    ensures
        r@ == docker_config_of(registry_json@, token_json@),
{
    let mut r = String::from_str("{\"auths\":{");
    r.append(registry_json);
    r.append(":{\"auth\":");
    r.append(token_json);
    r.append("}}}");
    r
}

/// The text entries of the build report: id, name, the tags joined by
/// commas, and the `name:tag` addresses joined by commas.
pub open spec fn report_texts(id: Seq<char>, name: Seq<char>, tags: Seq<Seq<char>>) -> Seq<
    (Seq<char>, Seq<char>),
> {
    seq![
        ("id"@, id),
        ("name"@, name),
        ("tags"@, joined(tags, ","@)),
        ("name_tags"@, joined(tags.map_values(|t: Seq<char>| tagged(name, t)), ","@)),
    ]
}

/// What rendering the build report template with the report's entries
/// yields.
pub open spec fn report_rendering(id: Seq<char>, name: Seq<char>, tags: Seq<Seq<char>>) -> Option<
    Seq<char>,
> {
    rendered(BUILD_REPORT@, report_texts(id, name, tags), Seq::empty(), Seq::empty(), Seq::empty())
}

/// A built image known to the local engine.
pub struct DockerImage {
    pub id: String,
    pub name: String,
    pub tags: Vec<String>,
    pub workdir: String,
}

impl DockerImage {
    /// Every address the image is known by.
    pub fn identifiers(&self) -> (r: Vec<String>)
        ensures
            views(r@) == expanded(self.name@, views(self.tags@)),
    {
        expanded_identifiers(&self.name, &self.tags)
    }

    /// Starts pushing every address of the image, in order.
    pub fn push(&self) -> (r: TagRun)
        ensures
            r.op == EngineOp::Push,
            views(r.ids@) == expanded(self.name@, views(self.tags@)),
            r.completed == 0,
            r.failure is None,
    {
        TagRun { op: EngineOp::Push, ids: self.identifiers(), completed: 0, failure: None }
    }

    /// The engine arguments that push one address with the authentication
    /// kept in the working directory.
    pub fn push_args(&self, identifier: &str) -> (r: Vec<String>)
        ensures
            views(r@) == seq!["--config"@, self.workdir@, "push"@, identifier@],
    {
        let r = vec![
            String::from_str("--config"),
            self.workdir.clone(),
            String::from_str("push"),
            String::from_str(identifier),
        ];
        assert(views(r@) =~= seq!["--config"@, self.workdir@, "push"@, identifier@]);
        r
    }

    /// Starts removing every address of the image, in order. The image is
    /// consumed.
    pub fn rm(self) -> (r: TagRun)
        ensures
            r.op == EngineOp::Remove,
            views(r.ids@) == expanded(self.name@, views(self.tags@)),
            r.completed == 0,
            r.failure is None,
    {
        TagRun { op: EngineOp::Remove, ids: self.identifiers(), completed: 0, failure: None }
    }

    /// The engine arguments that remove one address.
    pub fn remove_args(identifier: &str) -> (r: Vec<String>)
        ensures
            views(r@) == seq!["rmi"@, identifier@],
    {
        let r = vec![String::from_str("rmi"), String::from_str(identifier)];
        assert(views(r@) =~= seq!["rmi"@, identifier@]);
        r
    }

    /// The data the build report is rendered with.
    pub fn report_data(&self) -> (r: TemplateData)
        ensures
            r.texts_view() == report_texts(self.id@, self.name@, views(self.tags@)),
            r.flags@.len() == 0,
            r.lists@.len() == 0,
            r.maps@.len() == 0,
    {
        let mut name_tags: Vec<String> = Vec::new();
        let mut i: usize = 0;
        while i < self.tags.len()
            invariant
                i <= self.tags@.len(),
                name_tags@.len() == i,
                forall|j: int| 0 <= j < i ==> #[trigger] name_tags@[j]@ == tagged(
                    self.name@,
                    self.tags@[j]@,
                ),
            decreases self.tags@.len() - i,
        {
            name_tags.push(tagged_identifier(self.name.as_str(), self.tags[i].as_str()));
            i = i + 1;
        }
        assert(views(name_tags@) =~= views(self.tags@).map_values(
            |t: Seq<char>| tagged(self.name@, t),
        ));
        let texts = vec![
            (String::from_str("id"), self.id.clone()),
            (String::from_str("name"), self.name.clone()),
            (String::from_str("tags"), join(&self.tags, ",")),
            (String::from_str("name_tags"), join(&name_tags, ",")),
        ];
        let r = TemplateData { texts, flags: Vec::new(), lists: Vec::new(), maps: Vec::new() };
        assert(r.texts_view() =~= report_texts(self.id@, self.name@, views(self.tags@)));
        r
    }

    /// The text of the build report, written by the caller to
    /// `BUILD_REPORT_FILE` in the destination directory.
    pub fn create_report(&self) -> (r: Result<String, Error>)
        ensures
            match report_rendering(self.id@, self.name@, views(self.tags@)) {
                Some(t) => r is Ok && r->Ok_0@ == t,
                None => r matches Err(Error::TemplateRenderFailed(_)),
            },
    {
        let data = self.report_data();
        assert(data.flags_view() =~= Seq::empty());
        assert(data.lists_view() =~= Seq::empty());
        assert(data.maps_view() =~= Seq::empty());
        match render_template(BUILD_REPORT, &data) {
            Ok(s) => Ok(s),
            Err(e) => Err(Error::TemplateRenderFailed(e)),
        }
    }

    /// The registry authentication document for `credentials` at
    /// `registry_url`, or at `DEFAULT_REGISTRY` when none is given; written
    /// by the caller to `DOCKER_CONFIG_FILE` in the working directory.
    pub fn create_docker_config_file(&self, credentials: &Credentials, registry_url: Option<&str>) -> (r: String)
        ensures
            r@ == docker_config_of(
                json_quoted(
                    match registry_url {
                        Some(u) => u@,
                        None => DEFAULT_REGISTRY@,
                    },
                ),
                json_quoted(credentials.token@),
            ),
    {
        let registry = match registry_url {
            Some(url) => url,
            None => DEFAULT_REGISTRY,
        };
        let registry_json = json_string(registry);
        let token_json = json_string(credentials.token.as_str());
        docker_config(registry_json.as_str(), token_json.as_str())
    }
}

} // verus!
