//! Configuration: command-line settings, the normalized service address,
//! the default file-type and exclusion lists, and the static upload
//! strategy chosen by project size.

use std::sync::Arc;
use vstd::prelude::*;

use crate::index::manager::string_views;
use crate::text::{
    chars_of, has_prefix, push_all, skip_chars, starts_with_chars, string_from_chars,
    trim_end_char, trim_end_matching,
};

verus! {

/// Upload parameters given on the command line.
#[derive(Debug, Clone)]
pub struct CliOverrides {
    pub upload_timeout_secs: Option<u64>,
    pub upload_concurrency: Option<usize>,
}

/// Optional configuration parameters for `Config::new`.
#[derive(Debug, Clone)]
pub struct ConfigOptions {
    pub max_lines_per_blob: Option<usize>,
    pub upload_timeout: Option<u64>,
    pub upload_concurrency: Option<usize>,
    pub retrieval_timeout: Option<u64>,
    pub no_adaptive: bool,
}

impl Default for CliOverrides {
    /// No override.
    fn default() -> (res: Self)
        ensures
            res.upload_timeout_secs is None,
            res.upload_concurrency is None,
    {
        CliOverrides { upload_timeout_secs: None, upload_concurrency: None }
    }
}

impl Default for ConfigOptions {
    /// Every option unset; adaptive uploads on.
    fn default() -> (res: Self)
        ensures
            res.max_lines_per_blob is None,
            res.upload_timeout is None,
            res.upload_concurrency is None,
            res.retrieval_timeout is None,
            !res.no_adaptive,
    {
        ConfigOptions {
            max_lines_per_blob: None,
            upload_timeout: None,
            upload_concurrency: None,
            retrieval_timeout: None,
            no_adaptive: false,
        }
    }
}

/// Main configuration.
#[derive(Debug, Clone)]
pub struct Config {
    pub base_url: String,
    pub token: String,
    pub max_lines_per_blob: usize,
    pub retrieval_timeout_secs: u64,
    pub no_adaptive: bool,
    pub cli_overrides: CliOverrides,
    pub text_extensions: Vec<String>,
    pub text_filenames: Vec<String>,
    pub exclude_patterns: Vec<String>,
}

/// Why a configuration was refused.
#[derive(Debug, Clone, Copy, PartialEq, Eq, Structural)]
pub enum ConfigError {
    EmptyBaseUrl,
    EmptyToken,
}

impl ConfigError {
    /// The error message.
    pub fn message(&self) -> (res: String)
        ensures
            res@ == match self {
                ConfigError::EmptyBaseUrl => "base_url cannot be empty"@,
                ConfigError::EmptyToken => "token cannot be empty"@,
            },
    {
        match self {
            ConfigError::EmptyBaseUrl => "base_url cannot be empty".to_owned(),
            ConfigError::EmptyToken => "token cannot be empty".to_owned(),
        }
    }
}

/// The address with an `https://` scheme: `http://` is replaced, `https://`
/// kept, and anything else prefixed.
pub open spec fn with_https(s: Seq<char>) -> Seq<char> {
    if has_prefix(s, "http://"@) {
        "https://"@ + s.skip("http://"@.len() as int)
    } else if has_prefix(s, "https://"@) {
        s
    } else {
        "https://"@ + s
    }
}

/// The normalized service address: `https://` scheme, no trailing `/`.
pub open spec fn normalize_base_url(s: Seq<char>) -> Seq<char> {
    trim_end_char(with_https(s), '/')
}

/// The address with an `https://` scheme always starts with it.
pub proof fn lemma_with_https_prefix(s: Seq<char>)
    ensures
        has_prefix(with_https(s), "https://"@),
{
    reveal_strlit("https://");
    reveal_strlit("http://");
    let w = with_https(s);
    if has_prefix(s, "http://"@) {
        assert(w.take(8) =~= "https://"@);
    } else if has_prefix(s, "https://"@) {
    } else {
        assert(w.take(8) =~= "https://"@);
    }
}

/// Puts the address under the `https://` scheme (see `with_https`).
fn with_https_exec(base_url: &str) -> (res: Vec<char>)
    ensures
        res@ == with_https(base_url@),
{
    let b = chars_of(base_url);
    let http = chars_of("http://");
    let https = chars_of("https://");
    if starts_with_chars(&b, &http) {
        let rest = skip_chars(&b, http.len());
        let mut u = chars_of("https://");
        push_all(&mut u, &rest);
        u
    } else if starts_with_chars(&b, &https) {
        b
    } else {
        let mut u = chars_of("https://");
        push_all(&mut u, &b);
        u
    }
}

/// Normalizes the service address.
pub fn normalize_base_url_exec(base_url: &str) -> (res: Vec<char>)
    ensures
        res@ == normalize_base_url(base_url@),
{
    let url = with_https_exec(base_url);
    trim_end_matching(&url, '/')
}

/// The normalized address always starts with `https:` and never ends with `/`.
pub proof fn law_base_url_normalized(s: Seq<char>)
    ensures
        has_prefix(normalize_base_url(s), "https:"@),
        normalize_base_url(s).last() != '/',
{
    reveal_strlit("https://");
    reveal_strlit("https:");
    let w = with_https(s);
    lemma_with_https_prefix(s);
    assert(w.take(8)[5] == ':');
    assert(w[5] == ':');
    crate::text::lemma_trim_end_char(w, '/');
    let t = trim_end_char(w, '/');
    assert(t.len() > 5);
    assert(t.take(6) =~= "https:"@);
}

/// Normalizing an address that already starts with `https://` changes
/// nothing more: a normalized address of that form is a fixed point.
pub proof fn law_base_url_idempotent(s: Seq<char>)
    requires
        has_prefix(normalize_base_url(s), "https://"@),
    ensures
        normalize_base_url(normalize_base_url(s)) == normalize_base_url(s),
{
    reveal_strlit("https://");
    reveal_strlit("http://");
    let n = normalize_base_url(s);
    law_base_url_normalized(s);
    assert(!has_prefix(n, "http://"@)) by {
        assert(n.take(8)[4] == 's');
        assert(n[4] == 's');
        if has_prefix(n, "http://"@) {
            assert(n.take(7)[4] == ':');
        }
    }
    assert(with_https(n) == n);
    crate::text::lemma_trim_end_char_noop(n, '/');
}

impl Config {
    /// Creates a configuration: the address is required (an empty one is
    /// refused) and is normalized (see `normalize_base_url`), the token must
    /// not be empty, and missing options take their defaults (800 lines per
    /// blob, 60 s retrieval timeout).
    pub fn new(base_url: String, token: String, options: ConfigOptions) -> (res: Result<Arc<Self>, ConfigError>)
        ensures
            res matches Err(ConfigError::EmptyBaseUrl) <==> base_url@.len() == 0,
            res matches Err(ConfigError::EmptyToken) <==> (base_url@.len() > 0 && token@.len() == 0),
            res matches Ok(c) ==> {
                &&& c.base_url@ == normalize_base_url(base_url@)
                &&& c.token@ == token@
                &&& c.max_lines_per_blob == match options.max_lines_per_blob { Some(m) => m, None => 800 }
                &&& c.retrieval_timeout_secs == match options.retrieval_timeout { Some(t) => t, None => 60 }
                &&& c.no_adaptive == options.no_adaptive
                &&& c.cli_overrides.upload_timeout_secs == options.upload_timeout
                &&& c.cli_overrides.upload_concurrency == options.upload_concurrency
                &&& string_views(c.text_extensions@) == text_extension_list()
                &&& string_views(c.text_filenames@) == text_filename_list()
                &&& string_views(c.exclude_patterns@) == exclude_pattern_list()
            },
    {
        if base_url.as_str().is_empty() {
            return Err(ConfigError::EmptyBaseUrl);
        }
        let url = normalize_base_url_exec(base_url.as_str());
        if token.as_str().is_empty() {
            return Err(ConfigError::EmptyToken);
        }
        let max_lines_per_blob: usize = match options.max_lines_per_blob {
            Some(m) => m,
            None => 800,
        };
        let retrieval_timeout_secs: u64 = match options.retrieval_timeout {
            Some(t) => t,
            None => 60,
        };
        let config = Config {
            base_url: string_from_chars(&url),
            token,
            max_lines_per_blob,
            retrieval_timeout_secs,
            no_adaptive: options.no_adaptive,
            cli_overrides: CliOverrides {
                upload_timeout_secs: options.upload_timeout,
                upload_concurrency: options.upload_concurrency,
            },
            text_extensions: default_text_extensions(),
            text_filenames: default_text_filenames(),
            exclude_patterns: default_exclude_patterns(),
        };
        Ok(Arc::new(config))
    }
}

/// Upload parameters chosen by project size.
#[derive(Debug, Clone)]
pub struct UploadStrategy {
    pub batch_size: usize,
    pub concurrency: usize,
    pub timeout_ms: u64,
    pub scale_name: &'static str,
}

/// Picks upload parameters by the number of blobs: below 100 small, below
/// 500 medium, below 2000 large, otherwise extra large.
pub fn get_upload_strategy(blob_count: usize) -> (res: UploadStrategy)
    ensures
        blob_count < 100 ==> res.batch_size == 10 && res.concurrency == 1 && res.timeout_ms == 30000 && res.scale_name@ == "小型"@,
        100 <= blob_count < 500 ==> res.batch_size == 30 && res.concurrency == 2 && res.timeout_ms == 45000 && res.scale_name@ == "中型"@,
        500 <= blob_count < 2000 ==> res.batch_size == 50 && res.concurrency == 3 && res.timeout_ms == 60000 && res.scale_name@ == "大型"@,
        2000 <= blob_count ==> res.batch_size == 70 && res.concurrency == 4 && res.timeout_ms == 90000 && res.scale_name@ == "超大型"@,
{
    if blob_count < 100 {
        UploadStrategy { batch_size: 10, concurrency: 1, timeout_ms: 30000, scale_name: "小型" }
    } else if blob_count < 500 {
        UploadStrategy { batch_size: 30, concurrency: 2, timeout_ms: 45000, scale_name: "中型" }
    } else if blob_count < 2000 {
        UploadStrategy { batch_size: 50, concurrency: 3, timeout_ms: 60000, scale_name: "大型" }
    } else {
        UploadStrategy { batch_size: 70, concurrency: 4, timeout_ms: 90000, scale_name: "超大型" }
    }
}

/// Larger projects never get fewer blobs per batch, less concurrency or a
/// shorter timeout.
pub proof fn law_upload_strategy_monotone(a: usize, b: usize, sa: UploadStrategy, sb: UploadStrategy)
    requires
        a <= b,
        upload_strategy_for(a, sa),
        upload_strategy_for(b, sb),
    ensures
        sa.batch_size <= sb.batch_size,
        sa.concurrency <= sb.concurrency,
        sa.timeout_ms <= sb.timeout_ms,
{
}

/// `s` holds the numeric parameters that `get_upload_strategy(n)` returns.
pub open spec fn upload_strategy_for(n: usize, s: UploadStrategy) -> bool {
    if n < 100 {
        s.batch_size == 10 && s.concurrency == 1 && s.timeout_ms == 30000
    } else if n < 500 {
        s.batch_size == 30 && s.concurrency == 2 && s.timeout_ms == 45000
    } else if n < 2000 {
        s.batch_size == 50 && s.concurrency == 3 && s.timeout_ms == 60000
    } else {
        s.batch_size == 70 && s.concurrency == 4 && s.timeout_ms == 90000
    }
}

/// Default supported text file extensions (with the leading dot).
pub open spec fn text_extension_list() -> Seq<Seq<char>> {
    seq![
        ".py"@,
        ".js"@,
        ".ts"@,
        ".jsx"@,
        ".tsx"@,
        ".mjs"@,
        ".cjs"@,
        ".java"@,
        ".go"@,
        ".rs"@,
        ".cpp"@,
        ".c"@,
        ".cc"@,
        ".h"@,
        ".hpp"@,
        ".hxx"@,
        ".cs"@,
        ".rb"@,
        ".php"@,
        ".swift"@,
        ".kt"@,
        ".kts"@,
        ".scala"@,
        ".clj"@,
        ".cljs"@,
        ".lua"@,
        ".dart"@,
        ".m"@,
        ".mm"@,
        ".pl"@,
        ".pm"@,
        ".r"@,
        ".R"@,
        ".jl"@,
        ".ex"@,
        ".exs"@,
        ".erl"@,
        ".hs"@,
        ".zig"@,
        ".v"@,
    ]
    + seq![
        ".nim"@,
        ".f90"@,
        ".f95"@,
        ".groovy"@,
        ".gradle"@,
        ".sol"@,
        ".move"@,
        ".md"@,
        ".mdx"@,
        ".txt"@,
        ".json"@,
        ".jsonc"@,
        ".json5"@,
        ".yaml"@,
        ".yml"@,
        ".toml"@,
        ".xml"@,
        ".ini"@,
        ".conf"@,
        ".cfg"@,
        ".properties"@,
        ".editorconfig"@,
        ".html"@,
        ".htm"@,
        ".css"@,
        ".scss"@,
        ".sass"@,
        ".less"@,
        ".styl"@,
        ".vue"@,
        ".svelte"@,
        ".astro"@,
        ".ejs"@,
        ".hbs"@,
        ".pug"@,
        ".jade"@,
        ".jinja"@,
        ".jinja2"@,
        ".erb"@,
        ".liquid"@,
    ]
    + seq![
        ".twig"@,
        ".mustache"@,
        ".njk"@,
        ".sql"@,
        ".sh"@,
        ".bash"@,
        ".zsh"@,
        ".fish"@,
        ".ps1"@,
        ".psm1"@,
        ".bat"@,
        ".cmd"@,
        ".makefile"@,
        ".mk"@,
        ".cmake"@,
        ".graphql"@,
        ".gql"@,
        ".proto"@,
        ".prisma"@,
        ".csv"@,
        ".tsv"@,
        ".rst"@,
        ".adoc"@,
        ".tex"@,
        ".org"@,
        ".dockerfile"@,
        ".containerfile"@,
        ".vim"@,
        ".el"@,
        ".rkt"@,
    ]
}

/// Default supported text file extensions (with the leading dot).
pub fn default_text_extensions() -> (res: Vec<String>)
    ensures
        string_views(res@) == text_extension_list(),
{
    let mut v: Vec<String> = Vec::new();
    v.push(".py".to_owned());
    v.push(".js".to_owned());
    v.push(".ts".to_owned());
    v.push(".jsx".to_owned());
    v.push(".tsx".to_owned());
    v.push(".mjs".to_owned());
    v.push(".cjs".to_owned());
    v.push(".java".to_owned());
    v.push(".go".to_owned());
    v.push(".rs".to_owned());
    v.push(".cpp".to_owned());
    v.push(".c".to_owned());
    v.push(".cc".to_owned());
    v.push(".h".to_owned());
    v.push(".hpp".to_owned());
    v.push(".hxx".to_owned());
    v.push(".cs".to_owned());
    v.push(".rb".to_owned());
    v.push(".php".to_owned());
    v.push(".swift".to_owned());
    assert(string_views(v@) =~= text_extension_list().take(20));
    v.push(".kt".to_owned());
    v.push(".kts".to_owned());
    v.push(".scala".to_owned());
    v.push(".clj".to_owned());
    v.push(".cljs".to_owned());
    v.push(".lua".to_owned());
    v.push(".dart".to_owned());
    v.push(".m".to_owned());
    v.push(".mm".to_owned());
    v.push(".pl".to_owned());
    v.push(".pm".to_owned());
    v.push(".r".to_owned());
    v.push(".R".to_owned());
    v.push(".jl".to_owned());
    v.push(".ex".to_owned());
    v.push(".exs".to_owned());
    v.push(".erl".to_owned());
    v.push(".hs".to_owned());
    v.push(".zig".to_owned());
    v.push(".v".to_owned());
    assert(string_views(v@) =~= text_extension_list().take(40));
    v.push(".nim".to_owned());
    v.push(".f90".to_owned());
    v.push(".f95".to_owned());
    v.push(".groovy".to_owned());
    v.push(".gradle".to_owned());
    v.push(".sol".to_owned());
    v.push(".move".to_owned());
    v.push(".md".to_owned());
    v.push(".mdx".to_owned());
    v.push(".txt".to_owned());
    v.push(".json".to_owned());
    v.push(".jsonc".to_owned());
    v.push(".json5".to_owned());
    v.push(".yaml".to_owned());
    v.push(".yml".to_owned());
    v.push(".toml".to_owned());
    v.push(".xml".to_owned());
    v.push(".ini".to_owned());
    v.push(".conf".to_owned());
    v.push(".cfg".to_owned());
    assert(string_views(v@) =~= text_extension_list().take(60));
    v.push(".properties".to_owned());
    v.push(".editorconfig".to_owned());
    v.push(".html".to_owned());
    v.push(".htm".to_owned());
    v.push(".css".to_owned());
    v.push(".scss".to_owned());
    v.push(".sass".to_owned());
    v.push(".less".to_owned());
    v.push(".styl".to_owned());
    v.push(".vue".to_owned());
    v.push(".svelte".to_owned());
    v.push(".astro".to_owned());
    v.push(".ejs".to_owned());
    v.push(".hbs".to_owned());
    v.push(".pug".to_owned());
    v.push(".jade".to_owned());
    v.push(".jinja".to_owned());
    v.push(".jinja2".to_owned());
    v.push(".erb".to_owned());
    v.push(".liquid".to_owned());
    assert(string_views(v@) =~= text_extension_list().take(80));
    v.push(".twig".to_owned());
    v.push(".mustache".to_owned());
    v.push(".njk".to_owned());
    v.push(".sql".to_owned());
    v.push(".sh".to_owned());
    v.push(".bash".to_owned());
    v.push(".zsh".to_owned());
    v.push(".fish".to_owned());
    v.push(".ps1".to_owned());
    v.push(".psm1".to_owned());
    v.push(".bat".to_owned());
    v.push(".cmd".to_owned());
    v.push(".makefile".to_owned());
    v.push(".mk".to_owned());
    v.push(".cmake".to_owned());
    v.push(".graphql".to_owned());
    v.push(".gql".to_owned());
    v.push(".proto".to_owned());
    v.push(".prisma".to_owned());
    v.push(".csv".to_owned());
    assert(string_views(v@) =~= text_extension_list().take(100));
    v.push(".tsv".to_owned());
    v.push(".rst".to_owned());
    v.push(".adoc".to_owned());
    v.push(".tex".to_owned());
    v.push(".org".to_owned());
    v.push(".dockerfile".to_owned());
    v.push(".containerfile".to_owned());
    v.push(".vim".to_owned());
    v.push(".el".to_owned());
    v.push(".rkt".to_owned());
    assert(string_views(v@).take(110) =~= text_extension_list().take(110));
    assert(string_views(v@).take(110) =~= string_views(v@));
    assert(text_extension_list().take(110) =~= text_extension_list());
    assert(string_views(v@) =~= text_extension_list());
    v
}

/// Default exclude patterns: names and `*`/`?` globs matched against each path component and the whole relative path.
pub open spec fn exclude_pattern_list() -> Seq<Seq<char>> {
    seq![
        ".venv"@,
        "venv"@,
        ".env"@,
        "env"@,
        "node_modules"@,
        "vendor"@,
        ".pnpm"@,
        ".yarn"@,
        "bower_components"@,
        ".git"@,
        ".svn"@,
        ".hg"@,
        ".gitmodules"@,
        "__pycache__"@,
        ".pytest_cache"@,
        ".mypy_cache"@,
        ".tox"@,
        ".eggs"@,
        "*.egg-info"@,
        ".ruff_cache"@,
        "dist"@,
        "build"@,
        "target"@,
        "out"@,
        "bin"@,
        "obj"@,
        ".next"@,
        ".nuxt"@,
        ".output"@,
        ".vercel"@,
        ".netlify"@,
        ".turbo"@,
        ".parcel-cache"@,
        ".cache"@,
        ".temp"@,
        ".tmp"@,
        "coverage"@,
        ".nyc_output"@,
        "htmlcov"@,
        ".idea"@,
    ]
    + seq![
        ".vscode"@,
        ".vs"@,
        "*.swp"@,
        "*.swo"@,
        ".DS_Store"@,
        "Thumbs.db"@,
        "desktop.ini"@,
        "*.pyc"@,
        "*.pyo"@,
        "*.pyd"@,
        "*.so"@,
        "*.dll"@,
        "*.dylib"@,
        "*.exe"@,
        "*.o"@,
        "*.obj"@,
        "*.class"@,
        "*.jar"@,
        "*.war"@,
        "*.min.js"@,
        "*.min.css"@,
        "*.bundle.js"@,
        "*.chunk.js"@,
        "*.map"@,
        "*.gz"@,
        "*.zip"@,
        "*.tar"@,
        "*.rar"@,
        "package-lock.json"@,
        "yarn.lock"@,
        "pnpm-lock.yaml"@,
        "Gemfile.lock"@,
        "poetry.lock"@,
        "Cargo.lock"@,
        "composer.lock"@,
        "*.log"@,
        "logs"@,
        "tmp"@,
        "temp"@,
        "*.png"@,
    ]
    + seq![
        "*.jpg"@,
        "*.jpeg"@,
        "*.gif"@,
        "*.ico"@,
        "*.svg"@,
        "*.mp3"@,
        "*.mp4"@,
        "*.wav"@,
        "*.avi"@,
        "*.mov"@,
        "*.pdf"@,
        "*.doc"@,
        "*.docx"@,
        "*.xls"@,
        "*.xlsx"@,
        "*.woff"@,
        "*.woff2"@,
        "*.ttf"@,
        "*.eot"@,
        "*.otf"@,
        "*.db"@,
        "*.sqlite"@,
        "*.sqlite3"@,
        ".ace-tool"@,
    ]
}

/// Default exclude patterns: names and `*`/`?` globs matched against each path component and the whole relative path.
pub fn default_exclude_patterns() -> (res: Vec<String>)
    ensures
        string_views(res@) == exclude_pattern_list(),
{
    let mut v: Vec<String> = Vec::new();
    v.push(".venv".to_owned());
    v.push("venv".to_owned());
    v.push(".env".to_owned());
    v.push("env".to_owned());
    v.push("node_modules".to_owned());
    v.push("vendor".to_owned());
    v.push(".pnpm".to_owned());
    v.push(".yarn".to_owned());
    v.push("bower_components".to_owned());
    v.push(".git".to_owned());
    v.push(".svn".to_owned());
    v.push(".hg".to_owned());
    v.push(".gitmodules".to_owned());
    v.push("__pycache__".to_owned());
    v.push(".pytest_cache".to_owned());
    v.push(".mypy_cache".to_owned());
    v.push(".tox".to_owned());
    v.push(".eggs".to_owned());
    v.push("*.egg-info".to_owned());
    v.push(".ruff_cache".to_owned());
    assert(string_views(v@) =~= exclude_pattern_list().take(20));
    v.push("dist".to_owned());
    v.push("build".to_owned());
    v.push("target".to_owned());
    v.push("out".to_owned());
    v.push("bin".to_owned());
    v.push("obj".to_owned());
    v.push(".next".to_owned());
    v.push(".nuxt".to_owned());
    v.push(".output".to_owned());
    v.push(".vercel".to_owned());
    v.push(".netlify".to_owned());
    v.push(".turbo".to_owned());
    v.push(".parcel-cache".to_owned());
    v.push(".cache".to_owned());
    v.push(".temp".to_owned());
    v.push(".tmp".to_owned());
    v.push("coverage".to_owned());
    v.push(".nyc_output".to_owned());
    v.push("htmlcov".to_owned());
    v.push(".idea".to_owned());
    assert(string_views(v@) =~= exclude_pattern_list().take(40));
    v.push(".vscode".to_owned());
    v.push(".vs".to_owned());
    v.push("*.swp".to_owned());
    v.push("*.swo".to_owned());
    v.push(".DS_Store".to_owned());
    v.push("Thumbs.db".to_owned());
    v.push("desktop.ini".to_owned());
    v.push("*.pyc".to_owned());
    v.push("*.pyo".to_owned());
    v.push("*.pyd".to_owned());
    v.push("*.so".to_owned());
    v.push("*.dll".to_owned());
    v.push("*.dylib".to_owned());
    v.push("*.exe".to_owned());
    v.push("*.o".to_owned());
    v.push("*.obj".to_owned());
    v.push("*.class".to_owned());
    v.push("*.jar".to_owned());
    v.push("*.war".to_owned());
    v.push("*.min.js".to_owned());
    assert(string_views(v@) =~= exclude_pattern_list().take(60));
    v.push("*.min.css".to_owned());
    v.push("*.bundle.js".to_owned());
    v.push("*.chunk.js".to_owned());
    v.push("*.map".to_owned());
    v.push("*.gz".to_owned());
    v.push("*.zip".to_owned());
    v.push("*.tar".to_owned());
    v.push("*.rar".to_owned());
    v.push("package-lock.json".to_owned());
    v.push("yarn.lock".to_owned());
    v.push("pnpm-lock.yaml".to_owned());
    v.push("Gemfile.lock".to_owned());
    v.push("poetry.lock".to_owned());
    v.push("Cargo.lock".to_owned());
    v.push("composer.lock".to_owned());
    v.push("*.log".to_owned());
    v.push("logs".to_owned());
    v.push("tmp".to_owned());
    v.push("temp".to_owned());
    v.push("*.png".to_owned());
    assert(string_views(v@) =~= exclude_pattern_list().take(80));
    v.push("*.jpg".to_owned());
    v.push("*.jpeg".to_owned());
    v.push("*.gif".to_owned());
    v.push("*.ico".to_owned());
    v.push("*.svg".to_owned());
    v.push("*.mp3".to_owned());
    v.push("*.mp4".to_owned());
    v.push("*.wav".to_owned());
    v.push("*.avi".to_owned());
    v.push("*.mov".to_owned());
    v.push("*.pdf".to_owned());
    v.push("*.doc".to_owned());
    v.push("*.docx".to_owned());
    v.push("*.xls".to_owned());
    v.push("*.xlsx".to_owned());
    v.push("*.woff".to_owned());
    v.push("*.woff2".to_owned());
    v.push("*.ttf".to_owned());
    v.push("*.eot".to_owned());
    v.push("*.otf".to_owned());
    assert(string_views(v@) =~= exclude_pattern_list().take(100));
    v.push("*.db".to_owned());
    v.push("*.sqlite".to_owned());
    v.push("*.sqlite3".to_owned());
    v.push(".ace-tool".to_owned());
    assert(string_views(v@).take(104) =~= exclude_pattern_list().take(104));
    assert(string_views(v@).take(104) =~= string_views(v@));
    assert(exclude_pattern_list().take(104) =~= exclude_pattern_list());
    assert(string_views(v@) =~= exclude_pattern_list());
    v
}

/// Default known text file names (files without a recognized extension).
pub open spec fn text_filename_list() -> Seq<Seq<char>> {
    seq![
        "Makefile"@,
        "makefile"@,
        "GNUmakefile"@,
        "Dockerfile"@,
        "Containerfile"@,
        "Jenkinsfile"@,
        "Vagrantfile"@,
        "Procfile"@,
        ".gitignore"@,
        ".aceignore"@,
        ".gitattributes"@,
        ".gitmodules"@,
        ".dockerignore"@,
        ".npmignore"@,
        ".eslintignore"@,
        ".prettierignore"@,
        ".stylelintignore"@,
        ".editorconfig"@,
        ".browserslistrc"@,
        ".npmrc"@,
        ".yarnrc"@,
        ".nvmrc"@,
        ".node-version"@,
        ".ruby-version"@,
        ".python-version"@,
        ".env.example"@,
        ".env.sample"@,
        ".env.template"@,
        ".eslintrc"@,
        ".prettierrc"@,
        ".stylelintrc"@,
        ".babelrc"@,
        ".postcssrc"@,
        ".huskyrc"@,
        ".lintstagedrc"@,
        ".commitlintrc"@,
        "Gemfile"@,
        "Rakefile"@,
        "Brewfile"@,
        "Pipfile"@,
    ]
    + seq![
        "MANIFEST.in"@,
        "setup.py"@,
        "requirements.txt"@,
        "constraints.txt"@,
        "README"@,
        "CHANGELOG"@,
        "LICENSE"@,
        "LICENCE"@,
        "AUTHORS"@,
        "CONTRIBUTORS"@,
        "HISTORY"@,
        "TODO"@,
        "ROADMAP"@,
        "COPYING"@,
    ]
}

/// Default known text file names (files without a recognized extension).
pub fn default_text_filenames() -> (res: Vec<String>)
    ensures
        string_views(res@) == text_filename_list(),
{
    let mut v: Vec<String> = Vec::new();
    v.push("Makefile".to_owned());
    v.push("makefile".to_owned());
    v.push("GNUmakefile".to_owned());
    v.push("Dockerfile".to_owned());
    v.push("Containerfile".to_owned());
    v.push("Jenkinsfile".to_owned());
    v.push("Vagrantfile".to_owned());
    v.push("Procfile".to_owned());
    v.push(".gitignore".to_owned());
    v.push(".aceignore".to_owned());
    v.push(".gitattributes".to_owned());
    v.push(".gitmodules".to_owned());
    v.push(".dockerignore".to_owned());
    v.push(".npmignore".to_owned());
    v.push(".eslintignore".to_owned());
    v.push(".prettierignore".to_owned());
    v.push(".stylelintignore".to_owned());
    v.push(".editorconfig".to_owned());
    v.push(".browserslistrc".to_owned());
    v.push(".npmrc".to_owned());
    assert(string_views(v@) =~= text_filename_list().take(20));
    v.push(".yarnrc".to_owned());
    v.push(".nvmrc".to_owned());
    v.push(".node-version".to_owned());
    v.push(".ruby-version".to_owned());
    v.push(".python-version".to_owned());
    v.push(".env.example".to_owned());
    v.push(".env.sample".to_owned());
    v.push(".env.template".to_owned());
    v.push(".eslintrc".to_owned());
    v.push(".prettierrc".to_owned());
    v.push(".stylelintrc".to_owned());
    v.push(".babelrc".to_owned());
    v.push(".postcssrc".to_owned());
    v.push(".huskyrc".to_owned());
    v.push(".lintstagedrc".to_owned());
    v.push(".commitlintrc".to_owned());
    v.push("Gemfile".to_owned());
    v.push("Rakefile".to_owned());
    v.push("Brewfile".to_owned());
    v.push("Pipfile".to_owned());
    assert(string_views(v@) =~= text_filename_list().take(40));
    v.push("MANIFEST.in".to_owned());
    v.push("setup.py".to_owned());
    v.push("requirements.txt".to_owned());
    v.push("constraints.txt".to_owned());
    v.push("README".to_owned());
    v.push("CHANGELOG".to_owned());
    v.push("LICENSE".to_owned());
    v.push("LICENCE".to_owned());
    v.push("AUTHORS".to_owned());
    v.push("CONTRIBUTORS".to_owned());
    v.push("HISTORY".to_owned());
    v.push("TODO".to_owned());
    v.push("ROADMAP".to_owned());
    v.push("COPYING".to_owned());
    assert(string_views(v@).take(54) =~= text_filename_list().take(54));
    assert(string_views(v@).take(54) =~= string_views(v@));
    assert(text_filename_list().take(54) =~= text_filename_list());
    assert(string_views(v@) =~= text_filename_list());
    v
}

/// Every file type that the project's documentation lists as supported
/// (programming languages, configuration and data, web technologies) is a
/// default text extension.
pub proof fn law_default_extensions_cover_documented_types()
    ensures
        text_extension_list().contains(".py"@),
        text_extension_list().contains(".js"@),
        text_extension_list().contains(".ts"@),
        text_extension_list().contains(".jsx"@),
        text_extension_list().contains(".tsx"@),
        text_extension_list().contains(".java"@),
        text_extension_list().contains(".go"@),
        text_extension_list().contains(".rs"@),
        text_extension_list().contains(".cpp"@),
        text_extension_list().contains(".c"@),
        text_extension_list().contains(".h"@),
        text_extension_list().contains(".cs"@),
        text_extension_list().contains(".rb"@),
        text_extension_list().contains(".php"@),
        text_extension_list().contains(".swift"@),
        text_extension_list().contains(".kt"@),
        text_extension_list().contains(".scala"@),
        text_extension_list().contains(".lua"@),
        text_extension_list().contains(".dart"@),
        text_extension_list().contains(".r"@),
        text_extension_list().contains(".jl"@),
        text_extension_list().contains(".ex"@),
        text_extension_list().contains(".hs"@),
        text_extension_list().contains(".zig"@),
        text_extension_list().contains(".json"@),
        text_extension_list().contains(".yaml"@),
        text_extension_list().contains(".yml"@),
        text_extension_list().contains(".toml"@),
        text_extension_list().contains(".xml"@),
        text_extension_list().contains(".ini"@),
        text_extension_list().contains(".conf"@),
        text_extension_list().contains(".md"@),
        text_extension_list().contains(".txt"@),
        text_extension_list().contains(".html"@),
        text_extension_list().contains(".css"@),
        text_extension_list().contains(".scss"@),
        text_extension_list().contains(".sass"@),
        text_extension_list().contains(".vue"@),
        text_extension_list().contains(".svelte"@),
        text_extension_list().contains(".astro"@),
{
    let l = text_extension_list();
    assert(l[0] == ".py"@);
    assert(l[1] == ".js"@);
    assert(l[2] == ".ts"@);
    assert(l[3] == ".jsx"@);
    assert(l[4] == ".tsx"@);
    assert(l[7] == ".java"@);
    assert(l[8] == ".go"@);
    assert(l[9] == ".rs"@);
    assert(l[10] == ".cpp"@);
    assert(l[11] == ".c"@);
    assert(l[13] == ".h"@);
    assert(l[16] == ".cs"@);
    assert(l[17] == ".rb"@);
    assert(l[18] == ".php"@);
    assert(l[19] == ".swift"@);
    assert(l[20] == ".kt"@);
    assert(l[22] == ".scala"@);
    assert(l[25] == ".lua"@);
    assert(l[26] == ".dart"@);
    assert(l[31] == ".r"@);
    assert(l[33] == ".jl"@);
    assert(l[34] == ".ex"@);
    assert(l[37] == ".hs"@);
    assert(l[38] == ".zig"@);
    assert(l[50] == ".json"@);
    assert(l[53] == ".yaml"@);
    assert(l[54] == ".yml"@);
    assert(l[55] == ".toml"@);
    assert(l[56] == ".xml"@);
    assert(l[57] == ".ini"@);
    assert(l[58] == ".conf"@);
    assert(l[47] == ".md"@);
    assert(l[49] == ".txt"@);
    assert(l[62] == ".html"@);
    assert(l[64] == ".css"@);
    assert(l[65] == ".scss"@);
    assert(l[66] == ".sass"@);
    assert(l[69] == ".vue"@);
    assert(l[70] == ".svelte"@);
    assert(l[71] == ".astro"@);
}

/// Every special file that the documentation lists is a default text file name.
pub proof fn law_default_filenames_cover_documented_files()
    ensures
        text_filename_list().contains("Makefile"@),
        text_filename_list().contains("Dockerfile"@),
        text_filename_list().contains("Jenkinsfile"@),
        text_filename_list().contains(".gitignore"@),
        text_filename_list().contains(".env.example"@),
        text_filename_list().contains("requirements.txt"@),
{
    let l = text_filename_list();
    assert(l[0] == "Makefile"@);
    assert(l[3] == "Dockerfile"@);
    assert(l[5] == "Jenkinsfile"@);
    assert(l[8] == ".gitignore"@);
    assert(l[25] == ".env.example"@);
    assert(l[42] == "requirements.txt"@);
}

/// Every default exclusion that the documentation lists (dependencies,
/// build artifacts, version control, caches, binary and media files, lock
/// files) is a default exclude pattern.
pub proof fn law_default_exclusions_cover_documented_patterns()
    ensures
        exclude_pattern_list().contains("node_modules"@),
        exclude_pattern_list().contains("vendor"@),
        exclude_pattern_list().contains(".venv"@),
        exclude_pattern_list().contains("venv"@),
        exclude_pattern_list().contains("target"@),
        exclude_pattern_list().contains("dist"@),
        exclude_pattern_list().contains("build"@),
        exclude_pattern_list().contains("out"@),
        exclude_pattern_list().contains(".next"@),
        exclude_pattern_list().contains(".git"@),
        exclude_pattern_list().contains(".svn"@),
        exclude_pattern_list().contains(".hg"@),
        exclude_pattern_list().contains("__pycache__"@),
        exclude_pattern_list().contains(".cache"@),
        exclude_pattern_list().contains(".pytest_cache"@),
        exclude_pattern_list().contains("*.exe"@),
        exclude_pattern_list().contains("*.dll"@),
        exclude_pattern_list().contains("*.so"@),
        exclude_pattern_list().contains("*.pyc"@),
        exclude_pattern_list().contains("*.png"@),
        exclude_pattern_list().contains("*.jpg"@),
        exclude_pattern_list().contains("*.mp4"@),
        exclude_pattern_list().contains("*.pdf"@),
        exclude_pattern_list().contains("package-lock.json"@),
        exclude_pattern_list().contains("yarn.lock"@),
        exclude_pattern_list().contains("Cargo.lock"@),
{
    let l = exclude_pattern_list();
    assert(l[4] == "node_modules"@);
    assert(l[5] == "vendor"@);
    assert(l[0] == ".venv"@);
    assert(l[1] == "venv"@);
    assert(l[22] == "target"@);
    assert(l[20] == "dist"@);
    assert(l[21] == "build"@);
    assert(l[23] == "out"@);
    assert(l[26] == ".next"@);
    assert(l[9] == ".git"@);
    assert(l[10] == ".svn"@);
    assert(l[11] == ".hg"@);
    assert(l[13] == "__pycache__"@);
    assert(l[33] == ".cache"@);
    assert(l[14] == ".pytest_cache"@);
    assert(l[53] == "*.exe"@);
    assert(l[51] == "*.dll"@);
    assert(l[50] == "*.so"@);
    assert(l[47] == "*.pyc"@);
    assert(l[79] == "*.png"@);
    assert(l[80] == "*.jpg"@);
    assert(l[86] == "*.mp4"@);
    assert(l[90] == "*.pdf"@);
    assert(l[68] == "package-lock.json"@);
    assert(l[69] == "yarn.lock"@);
    assert(l[73] == "Cargo.lock"@);
}

} // verus!
