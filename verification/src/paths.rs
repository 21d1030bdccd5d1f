//! Where the files live. A path is the sequence of its bytes, with `/` between components.
use vstd::prelude::*;

verus! {

/// The variables that the paths depend on, where they are set.
#[derive(Debug)]
pub struct Environment {
    /// `XDG_CONFIG_HOME`.
    pub config_home: Option<Vec<u8>>,
    /// `XDG_CACHE_HOME`.
    pub cache_home: Option<Vec<u8>>,
    /// `HOME`.
    pub home: Option<Vec<u8>>,
}

/// The bytes of a text in UTF-8.
pub open spec fn utf8(text: Seq<char>) -> Seq<u8> {
    vstd::utf8::encode_utf8(text)
}

/// `rest` below `base`. An absolute `rest` stands for itself.
pub open spec fn joined(base: Seq<u8>, rest: Seq<u8>) -> Seq<u8> {
    if rest.len() > 0 && rest[0] == 0x2f {
        rest
    } else if base.len() == 0 || base.last() == 0x2f {
        base + rest
    } else {
        base.push(0x2f) + rest
    }
}

/// A base directory: the value of its variable, or else `fallback` below the home directory.
pub open spec fn base_dir(
    set: Option<Vec<u8>>,
    home: Option<Vec<u8>>,
    fallback: Seq<char>,
) -> Seq<u8> {
    match (set, home) {
        (Some(dir), _) => dir@,
        (None, Some(home)) => joined(home@, utf8(fallback)),
        (None, None) => joined(Seq::empty(), utf8(fallback)),
    }
}

impl Environment {
    /// The directory below which configurations live.
    pub open spec fn config_base(self) -> Seq<u8> {
        base_dir(self.config_home, self.home, ".config"@)
    }

    /// The directory below which caches live.
    pub open spec fn cache_base(self) -> Seq<u8> {
        base_dir(self.cache_home, self.home, ".cache"@)
    }

    /// The directory of the configuration file.
    pub open spec fn config_folder(self) -> Seq<u8> {
        joined(self.config_base(), utf8("waybar"@))
    }

    /// The configuration file.
    pub open spec fn config_file(self) -> Seq<u8> {
        joined(self.config_base(), utf8("waybar/tapo.json"@))
    }

    /// The file in which a new configuration is prepared.
    pub open spec fn staging_file(self) -> Seq<u8> {
        joined(self.config_base(), utf8("waybar/tapo.json.new"@))
    }
}

impl Environment {
    /// The directory of the lock file.
    pub open spec fn lock_folder(self) -> Seq<u8> {
        joined(self.cache_base(), utf8("waybar-tapo"@))
    }

    /// The lock file.
    pub open spec fn lock_file(self) -> Seq<u8> {
        joined(self.lock_folder(), utf8("device.lock"@))
    }
}

/// Joins a path and a relative or absolute one.
pub fn join(base: Vec<u8>, rest: &str) -> (r: Vec<u8>)
    ensures
        r@ == joined(base@, utf8(rest@)),
{
    let rest: &[u8] = rest.as_bytes();
    let mut path: Vec<u8> = base;
    if rest.len() > 0 && rest[0] == 0x2f {
        path = Vec::new();
    } else if path.len() > 0 && path[path.len() - 1] != 0x2f {
        path.push(0x2f);
    }
    path.extend_from_slice(rest);
    path
}

/// Finds a base directory from its variable and the home directory.
pub fn xdg(set: &Option<Vec<u8>>, home: &Option<Vec<u8>>, fallback: &str) -> (r: Vec<u8>)
    ensures
        r@ == base_dir(*set, *home, fallback@),
{
    match set {
        Some(dir) => dir.clone(),
        None => match home {
            Some(home) => join(home.clone(), fallback),
            None => join(Vec::new(), fallback),
        },
    }
}

/// The configuration file.
pub fn config_path(env: &Environment) -> (r: Vec<u8>)
    ensures
        r@ == env.config_file(),
{
    join(xdg(&env.config_home, &env.home, ".config"), "waybar/tapo.json")
}

/// The directory of the configuration file.
pub fn config_dir(env: &Environment) -> (r: Vec<u8>)
    ensures
        r@ == env.config_folder(),
{
    join(xdg(&env.config_home, &env.home, ".config"), "waybar")
}

/// The file in which a new configuration is prepared.
pub fn staging_path(env: &Environment) -> (r: Vec<u8>)
    ensures
        r@ == env.staging_file(),
{
    join(xdg(&env.config_home, &env.home, ".config"), "waybar/tapo.json.new")
}

/// The directory of the lock file.
pub fn lock_dir(env: &Environment) -> (r: Vec<u8>)
    ensures
        r@ == joined(env.cache_base(), utf8("waybar-tapo"@)),
        r@ == env.lock_folder(),
{
    join(xdg(&env.cache_home, &env.home, ".cache"), "waybar-tapo")
}

/// The lock file.
pub fn lock_path(env: &Environment) -> (r: Vec<u8>)
    ensures
        r@ == joined(joined(env.cache_base(), utf8("waybar-tapo"@)), utf8("device.lock"@)),
        r@ == env.lock_file(),
{
    join(lock_dir(env), "device.lock")
}

/// The configuration file lies directly in its directory, and the file in which a new one is
/// prepared lies beside it.
pub proof fn config_files_share_a_directory(env: Environment)
    ensures
        env.config_file() == joined(env.config_folder(), utf8("tapo.json"@)),
        env.staging_file() == joined(env.config_folder(), utf8("tapo.json.new"@)),
        env.staging_file() == env.config_file() + utf8(".new"@),
        env.staging_file() != env.config_file(),
{
    reveal_strlit("waybar");
    reveal_strlit("waybar/tapo.json");
    reveal_strlit("waybar/tapo.json.new");
    reveal_strlit("tapo.json");
    reveal_strlit("tapo.json.new");
    reveal_strlit(".new");
    vstd::utf8::is_ascii_chars_encode_utf8("waybar"@);
    vstd::utf8::is_ascii_chars_encode_utf8("waybar/tapo.json"@);
    vstd::utf8::is_ascii_chars_encode_utf8("waybar/tapo.json.new"@);
    vstd::utf8::is_ascii_chars_encode_utf8("tapo.json"@);
    vstd::utf8::is_ascii_chars_encode_utf8("tapo.json.new"@);
    vstd::utf8::is_ascii_chars_encode_utf8(".new"@);
    let base = env.config_base();
    let dir = joined(base, utf8("waybar"@));
    assert(utf8("waybar"@).len() == 6 && utf8("waybar"@)[0] != 0x2f && utf8("waybar"@)[5]
        != 0x2f);
    assert(dir.last() == utf8("waybar"@)[5]);
    assert(utf8("waybar/tapo.json"@) == utf8("waybar"@).push(0x2f) + utf8("tapo.json"@));
    assert(utf8("waybar/tapo.json.new"@) == utf8("waybar"@).push(0x2f) + utf8("tapo.json.new"@));
    assert(utf8("waybar/tapo.json.new"@) == utf8("waybar/tapo.json"@) + utf8(".new"@));
    assert(joined(base, utf8("waybar/tapo.json"@)) =~= joined(dir, utf8("tapo.json"@)));
    assert(joined(base, utf8("waybar/tapo.json.new"@)) =~= joined(dir, utf8("tapo.json.new"@)));
    assert(joined(base, utf8("waybar/tapo.json.new"@)) =~= joined(base, utf8("waybar/tapo.json"@))
        + utf8(".new"@));
    assert(env.staging_file().len() == env.config_file().len() + 4);
}

/// An absolute path stands for itself; a relative one follows its base, with one slash between
/// the two unless the base is empty or has one.
pub proof fn joining_paths(base: Seq<u8>, rest: Seq<u8>)
    ensures
        forall|text: Seq<char>| #[trigger] utf8(text) == vstd::utf8::encode_utf8(text),
        rest.len() > 0 && rest[0] == 0x2f ==> joined(base, rest) == rest,
        !(rest.len() > 0 && rest[0] == 0x2f) ==> {
            &&& joined(Seq::empty(), rest) == rest
            &&& joined(base.push(0x2f), rest) == base.push(0x2f) + rest
            &&& base.len() > 0 && base.last() != 0x2f ==> joined(base, rest) == base + seq![
                0x2fu8,
            ] + rest
        },
{
    if !(rest.len() > 0 && rest[0] == 0x2f) {
        assert(joined(Seq::empty(), rest) =~= rest);
        if base.len() > 0 && base.last() != 0x2f {
            assert(joined(base, rest) =~= base + seq![0x2fu8] + rest);
        }
    }
}

proof fn relative_names()
    ensures
        forall|name: Seq<char>|
            #![trigger utf8(name)]
            name == "waybar"@ || name == "waybar/tapo.json"@ || name == "waybar/tapo.json.new"@
                || name == ".config"@ || name == ".cache"@ || name == "waybar-tapo"@ || name
                == "device.lock"@ ==> utf8(name).len() > 0 && utf8(name)[0] != 0x2f,
{
    reveal_strlit("waybar");
    reveal_strlit("waybar/tapo.json");
    reveal_strlit("waybar/tapo.json.new");
    reveal_strlit(".config");
    reveal_strlit(".cache");
    reveal_strlit("waybar-tapo");
    reveal_strlit("device.lock");
    vstd::utf8::is_ascii_chars_encode_utf8("waybar"@);
    vstd::utf8::is_ascii_chars_encode_utf8("waybar/tapo.json"@);
    vstd::utf8::is_ascii_chars_encode_utf8("waybar/tapo.json.new"@);
    vstd::utf8::is_ascii_chars_encode_utf8(".config"@);
    vstd::utf8::is_ascii_chars_encode_utf8(".cache"@);
    vstd::utf8::is_ascii_chars_encode_utf8("waybar-tapo"@);
    vstd::utf8::is_ascii_chars_encode_utf8("device.lock"@);
}

/// If `XDG_CONFIG_HOME` is set, the configuration lies below its value, whatever `HOME` is; if
/// not, it lies in `.config` below the value of `HOME`, or below the current directory if that is
/// not set either.
pub proof fn configuration_lies_below_its_variable(env: Environment, dir: Vec<u8>)
    ensures
        env.config_home == Some(dir) ==> {
            &&& env.config_folder() == joined(dir@, utf8("waybar"@))
            &&& env.config_file() == joined(dir@, utf8("waybar/tapo.json"@))
            &&& env.staging_file() == joined(dir@, utf8("waybar/tapo.json.new"@))
        },
        env.config_home is None && env.home == Some(dir) ==> {
            let base = joined(dir@, utf8(".config"@));
            &&& env.config_folder() == joined(base, utf8("waybar"@))
            &&& env.config_file() == joined(base, utf8("waybar/tapo.json"@))
            &&& env.staging_file() == joined(base, utf8("waybar/tapo.json.new"@))
        },
        env.config_home is None && env.home is None ==> {
            &&& env.config_folder() == joined(utf8(".config"@), utf8("waybar"@))
            &&& env.config_file() == joined(utf8(".config"@), utf8("waybar/tapo.json"@))
            &&& env.staging_file() == joined(utf8(".config"@), utf8("waybar/tapo.json.new"@))
        },
{
    relative_names();
    joining_paths(Seq::empty(), utf8(".config"@));
}

/// If `XDG_CACHE_HOME` is set, the lock lies below its value, whatever `HOME` is; if not, it lies
/// in `.cache` below the value of `HOME`, or below the current directory if that is not set
/// either.
pub proof fn lock_lies_below_its_variable(env: Environment, dir: Vec<u8>)
    ensures
        env.cache_home == Some(dir) ==> {
            &&& env.cache_base() == dir@
            &&& env.lock_folder() == joined(dir@, utf8("waybar-tapo"@))
        },
        env.cache_home is None && env.home == Some(dir) ==> {
            &&& env.cache_base() == joined(dir@, utf8(".cache"@))
            &&& env.lock_folder() == joined(joined(dir@, utf8(".cache"@)), utf8("waybar-tapo"@))
        },
        env.cache_home is None && env.home is None ==> {
            &&& env.cache_base() == utf8(".cache"@)
            &&& env.lock_folder() == joined(utf8(".cache"@), utf8("waybar-tapo"@))
        },
        env.lock_file() == joined(env.lock_folder(), utf8("device.lock"@)),
{
    relative_names();
    joining_paths(Seq::empty(), utf8(".cache"@));
}

proof fn utf8_concat(a: Seq<char>, b: Seq<char>)
    ensures
        utf8(a + b) == utf8(a) + utf8(b),
    decreases a.len(),
{
    if a.len() == 0 {
        assert(a + b == b);
        assert(utf8(a) + utf8(b) == utf8(b));
    } else {
        utf8_concat(a.drop_first(), b);
        assert((a + b).drop_first() == a.drop_first() + b);
        assert((a + b)[0] == a[0]);
        assert(utf8(a + b) =~= utf8(a) + utf8(b));
    }
}

/// A text after a slash, in UTF-8.
proof fn utf8_after_slash(name: Seq<char>, slashed: Seq<char>)
    requires
        slashed == "/"@ + name,
    ensures
        utf8(slashed) == seq![0x2fu8] + utf8(name),
{
    reveal_strlit("/");
    vstd::utf8::is_ascii_chars_encode_utf8("/"@);
    utf8_concat("/"@, name);
    assert(utf8("/"@) =~= seq![0x2fu8]);
}

proof fn slashed_names()
    ensures
        "/waybar"@ == "/"@ + "waybar"@,
        "/waybar/tapo.json"@ == "/"@ + "waybar/tapo.json"@,
        "/waybar/tapo.json.new"@ == "/"@ + "waybar/tapo.json.new"@,
        "/.config"@ == "/"@ + ".config"@,
        "/.cache"@ == "/"@ + ".cache"@,
        "/.config/waybar"@ == "/.config"@ + "/waybar"@,
        "/.config/waybar/tapo.json"@ == "/.config"@ + "/waybar/tapo.json"@,
        "/.config/waybar/tapo.json.new"@ == "/.config"@ + "/waybar/tapo.json.new"@,
{
    reveal_strlit("/");
    reveal_strlit("waybar");
    reveal_strlit("/waybar");
    reveal_strlit("waybar/tapo.json");
    reveal_strlit("/waybar/tapo.json");
    reveal_strlit("waybar/tapo.json.new");
    reveal_strlit("/waybar/tapo.json.new");
    reveal_strlit(".config");
    reveal_strlit("/.config");
    reveal_strlit(".cache");
    reveal_strlit("/.cache");
    reveal_strlit("/.config/waybar");
    reveal_strlit("/.config/waybar/tapo.json");
    reveal_strlit("/.config/waybar/tapo.json.new");
}

proof fn config_ends_in_no_slash(base: Seq<u8>)
    ensures
        (base + utf8("/.config"@)).len() > 0,
        (base + utf8("/.config"@)).last() != 0x2f,
{
    reveal_strlit("/.config");
    vstd::utf8::is_ascii_chars_encode_utf8("/.config"@);
    assert("/.config"@[7] == 'g');
    assert((base + utf8("/.config"@)).last() == utf8("/.config"@)[7]);
}

proof fn joined_below(base: Seq<u8>, name: Seq<char>, slashed: Seq<char>)
    requires
        base.len() > 0,
        base.last() != 0x2f,
        utf8(name).len() > 0,
        utf8(name)[0] != 0x2f,
        slashed == "/"@ + name,
    ensures
        joined(base, utf8(name)) == base + utf8(slashed),
{
    joining_paths(base, utf8(name));
    utf8_after_slash(name, slashed);
    assert(joined(base, utf8(name)) =~= base + utf8(slashed));
}

/// Where a base directory is named without a slash at its end, each file is named by appending
/// its own path after one slash.
pub proof fn files_are_appended_to_their_directory(env: Environment, dir: Vec<u8>)
    requires
        dir@.len() > 0,
        dir@.last() != 0x2f,
    ensures
        env.config_home == Some(dir) ==> {
            &&& env.config_folder() == dir@ + utf8("/waybar"@)
            &&& env.config_file() == dir@ + utf8("/waybar/tapo.json"@)
            &&& env.staging_file() == dir@ + utf8("/waybar/tapo.json.new"@)
        },
        env.config_home is None && env.home == Some(dir) ==> {
            &&& env.config_folder() == dir@ + utf8("/.config/waybar"@)
            &&& env.config_file() == dir@ + utf8("/.config/waybar/tapo.json"@)
            &&& env.staging_file() == dir@ + utf8("/.config/waybar/tapo.json.new"@)
        },
        env.cache_home == Some(dir) ==> env.cache_base() == dir@,
        env.cache_home is None && env.home == Some(dir) ==> env.cache_base() == dir@ + utf8(
            "/.cache"@,
        ),
{
    relative_names();
    slashed_names();
    configuration_lies_below_its_variable(env, dir);
    lock_lies_below_its_variable(env, dir);
    joined_below(dir@, ".config"@, "/.config"@);
    joined_below(dir@, ".cache"@, "/.cache"@);
    let base = dir@ + utf8("/.config"@);
    config_ends_in_no_slash(dir@);
    joined_below(dir@, "waybar"@, "/waybar"@);
    joined_below(base, "waybar"@, "/waybar"@);
    utf8_concat("/.config"@, "/waybar"@);
    assert(base + utf8("/waybar"@) =~= dir@ + utf8("/.config/waybar"@));
    joined_below(dir@, "waybar/tapo.json"@, "/waybar/tapo.json"@);
    joined_below(base, "waybar/tapo.json"@, "/waybar/tapo.json"@);
    utf8_concat("/.config"@, "/waybar/tapo.json"@);
    assert(base + utf8("/waybar/tapo.json"@) =~= dir@ + utf8("/.config/waybar/tapo.json"@));
    joined_below(dir@, "waybar/tapo.json.new"@, "/waybar/tapo.json.new"@);
    joined_below(base, "waybar/tapo.json.new"@, "/waybar/tapo.json.new"@);
    utf8_concat("/.config"@, "/waybar/tapo.json.new"@);
    assert(base + utf8("/waybar/tapo.json.new"@) =~= dir@ + utf8("/.config/waybar/tapo.json.new"@));
}

/// The configuration does not move with the caches, nor the lock with the configurations.
pub proof fn variables_are_independent(env: Environment, other: Option<Vec<u8>>)
    ensures
        (Environment { cache_home: other, ..env }).config_file() == env.config_file(),
        (Environment { cache_home: other, ..env }).config_folder() == env.config_folder(),
        (Environment { cache_home: other, ..env }).staging_file() == env.staging_file(),
        (Environment { config_home: other, ..env }).lock_file() == env.lock_file(),
        env.config_home is Some ==> (Environment { home: other, ..env }).config_file()
            == env.config_file(),
        env.cache_home is Some ==> (Environment { home: other, ..env }).lock_file()
            == env.lock_file(),
{
}

} // verus!
