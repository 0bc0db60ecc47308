//! Source snippets that point an agent's SDK clients at the local mocks,
//! and the environment that does the same without code.

use vstd::prelude::*;
use crate::error::EngineError;
use crate::text::same_text;

verus! {

/// Mock key handed to OpenAI and Anthropic clients.
pub const MOCK_KEY: &'static str = "mock_key_sentra_lab";

/// Mock key handed to Stripe clients.
pub const STRIPE_MOCK_KEY: &'static str = "sk_test_mock_sentra_lab";

/// Shim configuration.
#[derive(Debug, Clone)]
pub struct ShimConfig {
    /// Mock base URL per service name, in insertion order. Lookups take
    /// the first entry of a name, so a later duplicate has no effect.
    pub mock_base_urls: Vec<(String, String)>,
    /// Inject shims automatically.
    pub auto_inject: bool,
    /// Directory of custom shim scripts.
    pub custom_shims_path: Option<String>,
}

impl Default for ShimConfig {
    fn default() -> (r: Self)
        ensures
            r.mock_base_urls@.len() == 3,
            r.mock_base_urls@[0].0@ == "openai"@ && r.mock_base_urls@[0].1@ == "http://localhost:8080"@,
            r.mock_base_urls@[1].0@ == "anthropic"@ && r.mock_base_urls@[1].1@ == "http://localhost:8081"@,
            r.mock_base_urls@[2].0@ == "stripe"@ && r.mock_base_urls@[2].1@ == "http://localhost:8082"@,
            r.auto_inject,
            r.custom_shims_path is None,
    {
        let mock_base_urls = vec![
            ("openai".to_string(), "http://localhost:8080".to_string()),
            ("anthropic".to_string(), "http://localhost:8081".to_string()),
            ("stripe".to_string(), "http://localhost:8082".to_string()),
        ];
        ShimConfig { mock_base_urls, auto_inject: true, custom_shims_path: None }
    }
}

/// The URL configured for `service`: the first entry of that name.
pub open spec fn url_for(urls: Seq<(String, String)>, service: Seq<char>) -> Option<Seq<char>>
    decreases urls.len(),
{
    if urls.len() == 0 {
        None
    } else if urls[0].0@ == service {
        Some(urls[0].1@)
    } else {
        url_for(urls.drop_first(), service)
    }
}

/// The URL for `service`, or `fallback` when none is configured.
pub open spec fn url_or(urls: Seq<(String, String)>, service: Seq<char>, fallback: Seq<char>) -> Seq<char> {
    match url_for(urls, service) {
        Some(u) => u,
        None => fallback,
    }
}

pub open spec fn openai_python(url: Seq<char>) -> Seq<char> {
    "\n# Sentra Lab OpenAI Python Shim\n# Automatically redirects OpenAI API calls to local mock\n\nimport os\nos.environ['OPENAI_BASE_URL'] = '"@
        + url + "'\nos.environ['OPENAI_API_KEY'] = 'mock_key_sentra_lab'\n\n# Monkey-patch OpenAI client if already imported\ntry:\n    import openai\n    openai.api_base = '"@
        + url + "'\n    openai.api_key = 'mock_key_sentra_lab'\nexcept ImportError:\n    pass\n"@
}

pub open spec fn openai_nodejs(url: Seq<char>) -> Seq<char> {
    "\n// Sentra Lab OpenAI Node.js Shim\n// Automatically redirects OpenAI API calls to local mock\n\nprocess.env.OPENAI_BASE_URL = '"@
        + url + "';\nprocess.env.OPENAI_API_KEY = 'mock_key_sentra_lab';\n\n// Monkey-patch OpenAI client\nconst Module = require('module');\nconst originalRequire = Module.prototype.require;\n\nModule.prototype.require = function(id) {\n  const module = originalRequire.apply(this, arguments);\n  \n  if (id === 'openai') {\n    // Override baseURL in OpenAI client\n    const originalConstructor = module.OpenAI;\n    module.OpenAI = class extends originalConstructor {\n      constructor(config = {}) {\n        config.baseURL = '"@
        + url + "';\n        config.apiKey = 'mock_key_sentra_lab';\n        super(config);\n      }\n    };\n  }\n  \n  return module;\n};\n"@
}

pub open spec fn openai_go(url: Seq<char>) -> Seq<char> {
    "\n// Sentra Lab OpenAI Go Shim\n// Automatically redirects OpenAI API calls to local mock\n\npackage main\n\nimport (\n    \"os\"\n)\n\nfunc init() {\n    // Set environment variables\n    os.Setenv(\"OPENAI_BASE_URL\", \""@
        + url + "\")\n    os.Setenv(\"OPENAI_API_KEY\", \"mock_key_sentra_lab\")\n}\n"@
}

pub open spec fn stripe_python(url: Seq<char>) -> Seq<char> {
    "\n# Sentra Lab Stripe Python Shim\n# Automatically redirects Stripe API calls to local mock\n\nimport os\nos.environ['STRIPE_API_BASE'] = '"@
        + url + "'\nos.environ['STRIPE_API_KEY'] = 'sk_test_mock_sentra_lab'\n\n# Monkey-patch Stripe if already imported\ntry:\n    import stripe\n    stripe.api_base = '"@
        + url + "'\n    stripe.api_key = 'sk_test_mock_sentra_lab'\nexcept ImportError:\n    pass\n"@
}

/// What `str::to_uppercase` makes of a text.
pub uninterp spec fn uppercase_of(s: Seq<char>) -> Seq<char>;

/// Relies on `str::to_uppercase`: the result depends on the characters
/// alone.
#[verifier::external_body]
fn uppercase(s: &str) -> (r: String)
    ensures
        r@ == uppercase_of(s@),
{
    s.to_uppercase()
}

/// Produces SDK shims and the environment for agents.
pub struct LibraryShim {
    config: ShimConfig,
}

impl LibraryShim {
    pub closed spec fn urls(&self) -> Seq<(String, String)> {
        self.config.mock_base_urls@
    }

    pub fn new(config: ShimConfig) -> (r: Self)
        ensures
            r.urls() == config.mock_base_urls@,
    {
        LibraryShim { config }
    }

    /// The configuration in use.
    pub fn config(&self) -> (r: &ShimConfig)
        ensures
            r.mock_base_urls@ == self.urls(),
    {
        &self.config
    }

    fn base_url(&self, service: &str, fallback: &str) -> (r: String)
        ensures
            r@ == url_or(self.urls(), service@, fallback@),
    {
        let mut k: usize = 0;
        let urls = &self.config.mock_base_urls;
        assert(urls@.skip(0) =~= urls@);
        while k < urls.len()
            invariant
                k <= urls@.len(),
                urls@ == self.urls(),
                url_for(urls@, service@) == url_for(urls@.skip(k as int), service@),
            decreases urls@.len() - k,
        {
            assert(urls@.skip(k as int).drop_first() =~= urls@.skip(k + 1));
            if same_text(urls[k].0.as_str(), service) {
                return urls[k].1.clone();
            }
            k = k + 1;
        }
        fallback.to_string()
    }

    /// Python shim that points the OpenAI SDK at its mock.
    pub fn generate_openai_python_shim(&self) -> (r: String)
        ensures
            r@ == openai_python(url_or(self.urls(), "openai"@, "http://localhost:8080"@)),
    {
        let url = self.base_url("openai", "http://localhost:8080");
        let mut out = "\n# Sentra Lab OpenAI Python Shim\n# Automatically redirects OpenAI API calls to local mock\n\nimport os\nos.environ['OPENAI_BASE_URL'] = '".to_string();
        out.append(url.as_str());
        out.append("'\nos.environ['OPENAI_API_KEY'] = 'mock_key_sentra_lab'\n\n# Monkey-patch OpenAI client if already imported\ntry:\n    import openai\n    openai.api_base = '");
        out.append(url.as_str());
        out.append("'\n    openai.api_key = 'mock_key_sentra_lab'\nexcept ImportError:\n    pass\n");
        out
    }

    /// Node.js shim that points the OpenAI SDK at its mock.
    pub fn generate_openai_nodejs_shim(&self) -> (r: String)
        ensures
            r@ == openai_nodejs(url_or(self.urls(), "openai"@, "http://localhost:8080"@)),
    {
        let url = self.base_url("openai", "http://localhost:8080");
        let mut out = "\n// Sentra Lab OpenAI Node.js Shim\n// Automatically redirects OpenAI API calls to local mock\n\nprocess.env.OPENAI_BASE_URL = '".to_string();
        out.append(url.as_str());
        out.append("';\nprocess.env.OPENAI_API_KEY = 'mock_key_sentra_lab';\n\n// Monkey-patch OpenAI client\nconst Module = require('module');\nconst originalRequire = Module.prototype.require;\n\nModule.prototype.require = function(id) {\n  const module = originalRequire.apply(this, arguments);\n  \n  if (id === 'openai') {\n    // Override baseURL in OpenAI client\n    const originalConstructor = module.OpenAI;\n    module.OpenAI = class extends originalConstructor {\n      constructor(config = {}) {\n        config.baseURL = '");
        out.append(url.as_str());
        out.append("';\n        config.apiKey = 'mock_key_sentra_lab';\n        super(config);\n      }\n    };\n  }\n  \n  return module;\n};\n");
        out
    }

    /// Go shim that points the OpenAI SDK at its mock.
    pub fn generate_openai_go_shim(&self) -> (r: String)
        ensures
            r@ == openai_go(url_or(self.urls(), "openai"@, "http://localhost:8080"@)),
    {
        let url = self.base_url("openai", "http://localhost:8080");
        let mut out = "\n// Sentra Lab OpenAI Go Shim\n// Automatically redirects OpenAI API calls to local mock\n\npackage main\n\nimport (\n    \"os\"\n)\n\nfunc init() {\n    // Set environment variables\n    os.Setenv(\"OPENAI_BASE_URL\", \"".to_string();
        out.append(url.as_str());
        out.append("\")\n    os.Setenv(\"OPENAI_API_KEY\", \"mock_key_sentra_lab\")\n}\n");
        out
    }

    /// Python shim that points the Stripe SDK at its mock.
    pub fn generate_stripe_python_shim(&self) -> (r: String)
        ensures
            r@ == stripe_python(url_or(self.urls(), "stripe"@, "http://localhost:8082"@)),
    {
        let url = self.base_url("stripe", "http://localhost:8082");
        let mut out = "\n# Sentra Lab Stripe Python Shim\n# Automatically redirects Stripe API calls to local mock\n\nimport os\nos.environ['STRIPE_API_BASE'] = '".to_string();
        out.append(url.as_str());
        out.append("'\nos.environ['STRIPE_API_KEY'] = 'sk_test_mock_sentra_lab'\n\n# Monkey-patch Stripe if already imported\ntry:\n    import stripe\n    stripe.api_base = '");
        out.append(url.as_str());
        out.append("'\n    stripe.api_key = 'sk_test_mock_sentra_lab'\nexcept ImportError:\n    pass\n");
        out
    }

    /// The shim for `language` and `service`; a pair without one is a
    /// `ConfigError`.
    pub fn generate_shim(&self, language: &str, service: &str) -> (r: Result<String, EngineError>)
        ensures
            language@ == "python"@ && service@ == "openai"@ ==> (r matches Ok(s) && s@ == openai_python(url_or(self.urls(), "openai"@, "http://localhost:8080"@))),
            language@ == "nodejs"@ && service@ == "openai"@ ==> (r matches Ok(s) && s@ == openai_nodejs(url_or(self.urls(), "openai"@, "http://localhost:8080"@))),
            language@ == "go"@ && service@ == "openai"@ ==> (r matches Ok(s) && s@ == openai_go(url_or(self.urls(), "openai"@, "http://localhost:8080"@))),
            language@ == "python"@ && service@ == "stripe"@ ==> (r matches Ok(s) && s@ == stripe_python(url_or(self.urls(), "stripe"@, "http://localhost:8082"@))),
            !(language@ == "python"@ && service@ == "openai"@) && !(language@ == "nodejs"@ && service@ == "openai"@)
                && !(language@ == "go"@ && service@ == "openai"@) && !(language@ == "python"@ && service@ == "stripe"@)
                ==> (r matches Err(e) && e is ConfigError),
    {
        proof {
            reveal_strlit("python");
            reveal_strlit("nodejs");
            reveal_strlit("go");
            reveal_strlit("openai");
            reveal_strlit("stripe");
            assert("nodejs"@[0] != "python"@[0]);
            assert("go"@.len() != "python"@.len());
            assert("go"@.len() != "nodejs"@.len());
            assert("openai"@[0] != "stripe"@[0]);
        }
        let openai = same_text(service, "openai");
        let stripe = same_text(service, "stripe");
        let python = same_text(language, "python");
        if python && openai {
            Ok(self.generate_openai_python_shim())
        } else if same_text(language, "nodejs") && openai {
            Ok(self.generate_openai_nodejs_shim())
        } else if same_text(language, "go") && openai {
            Ok(self.generate_openai_go_shim())
        } else if python && stripe {
            Ok(self.generate_stripe_python_shim())
        } else {
            Err(EngineError::ConfigError("No shim available for this language and service".to_string()))
        }
    }

    /// The environment for agents: `<SERVICE>_BASE_URL` for every
    /// configured service in order, then the mock API keys.
    pub fn get_env_vars(&self) -> (r: Vec<(String, String)>)
        ensures
            r@.len() == self.urls().len() + 3,
            forall|k: int| 0 <= k < self.urls().len() ==> (#[trigger] r@[k]).0@ == uppercase_of(self.urls()[k].0@) + "_BASE_URL"@
                && r@[k].1@ == self.urls()[k].1@,
            r@[self.urls().len() as int].0@ == "OPENAI_API_KEY"@ && r@[self.urls().len() as int].1@ == MOCK_KEY@,
            r@[self.urls().len() as int + 1].0@ == "ANTHROPIC_API_KEY"@ && r@[self.urls().len() as int + 1].1@ == MOCK_KEY@,
            r@[self.urls().len() as int + 2].0@ == "STRIPE_API_KEY"@ && r@[self.urls().len() as int + 2].1@ == STRIPE_MOCK_KEY@,
    {
        let urls = &self.config.mock_base_urls;
        let mut env: Vec<(String, String)> = Vec::new();
        let mut k: usize = 0;
        while k < urls.len()
            invariant
                k <= urls@.len(),
                urls@ == self.urls(),
                env@.len() == k,
                forall|j: int| 0 <= j < k ==> (#[trigger] env@[j]).0@ == uppercase_of(urls@[j].0@) + "_BASE_URL"@
                    && env@[j].1@ == urls@[j].1@,
            decreases urls@.len() - k,
        {
            let mut key = uppercase(urls[k].0.as_str());
            key.append("_BASE_URL");
            env.push((key, urls[k].1.clone()));
            k = k + 1;
        }
        env.push(("OPENAI_API_KEY".to_string(), MOCK_KEY.to_string()));
        env.push(("ANTHROPIC_API_KEY".to_string(), MOCK_KEY.to_string()));
        env.push(("STRIPE_API_KEY".to_string(), STRIPE_MOCK_KEY.to_string()));
        env
    }
}

impl Default for LibraryShim {
    /// Shims for the default mock URLs: OpenAI on 8080, Anthropic on 8081,
    /// Stripe on 8082.
    fn default() -> (r: Self)
        ensures
            r.urls().len() == 3,
            r.urls()[0].0@ == "openai"@ && r.urls()[0].1@ == "http://localhost:8080"@,
            r.urls()[1].0@ == "anthropic"@ && r.urls()[1].1@ == "http://localhost:8081"@,
            r.urls()[2].0@ == "stripe"@ && r.urls()[2].1@ == "http://localhost:8082"@,
    {
        LibraryShim::new(ShimConfig::default())
    }
}

} // verus!
