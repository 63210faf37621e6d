use vstd::prelude::*;
use crate::rule::{document_views, DocumentView, PatternDocument, RuleDocument};
use crate::registry::source_views;
use crate::text::views_of;

verus! {

/// A rule document with every optional field but the query given.
pub open spec fn entry(
    id: Seq<char>,
    name: Seq<char>,
    severity: Seq<char>,
    language: Seq<char>,
    cwe: Seq<char>,
    owasp: Seq<char>,
    description: Seq<char>,
    kind: Seq<char>,
    query: Option<Seq<char>>,
    regex: Seq<Seq<char>>,
    message: Seq<char>,
    fix_hint: Seq<char>,
    references: Seq<Seq<char>>,
) -> DocumentView {
    DocumentView {
        id,
        name,
        severity,
        language,
        cwe: Some(cwe),
        owasp: Some(owasp),
        description,
        kind,
        query,
        regex,
        message,
        fix_hint: Some(fix_hint),
        references,
    }
}

/// The rule documents that ship for Python.
pub open spec fn python_table() -> Seq<DocumentView> {
    seq![
        entry(
            "PY-SEC-001"@, "sql-injection"@, "critical"@, "python"@, "CWE-89"@, "A03:2021"@,
            "SQL text built from strings at run time lets input change the query."@,
            "ast"@, Some(r#"(call function: (attribute attribute: (identifier) @method (#match? @method "^(execute|executemany)$")) arguments: (argument_list [(binary_operator) (string (interpolation))]))"#@),
            seq![r#"\.execute(many)?\(\s*(f["']|["'][^"']*["']\s*(\+|%|\.format))"#@],
            "Possible SQL injection: query text is assembled from variables."@,
            "Pass values as query parameters: cursor.execute(\"... WHERE id = %s\", (user_id,))."@,
            seq!["https://owasp.org/www-community/attacks/SQL_Injection"@],
        ),
        entry(
            "PY-SEC-002"@, "os-command-injection"@, "critical"@, "python"@, "CWE-78"@, "A03:2021"@,
            "Shell commands built from input can run arbitrary programs."@,
            "regex"@, None,
            seq![r"os\.(system|popen)\s*\("@, r"subprocess\.\w+\([^)]*shell\s*=\s*True"@],
            "Possible OS command injection through a shell call."@,
            "Use subprocess.run with a list of arguments and shell=False."@,
            seq!["https://owasp.org/www-community/attacks/Command_Injection"@],
        ),
        entry(
            "PY-SEC-003"@, "hardcoded-secrets"@, "high"@, "python"@, "CWE-798"@, "A07:2021"@,
            "Credentials written into source code leak with the code."@,
            "regex"@, None,
            seq![r#"(?i)(password|passwd|secret|api_key|apikey|token)\s*=\s*["'][^"']{4,}["']"#@],
            "Hardcoded secret in source code."@,
            "Read secrets from the environment or a secret store."@,
            seq!["https://cwe.mitre.org/data/definitions/798.html"@],
        ),
        entry(
            "PY-SEC-004"@, "insecure-random"@, "medium"@, "python"@, "CWE-330"@, "A02:2021"@,
            "The random module is predictable and unfit for security values."@,
            "regex"@, None,
            seq![r"random\.(random|randint|choice|randrange)\s*\("@],
            "Insecure random number generator."@,
            "Use the secrets module for tokens and keys."@,
            seq!["https://docs.python.org/3/library/secrets.html"@],
        ),
        entry(
            "PY-SEC-005"@, "eval-exec"@, "critical"@, "python"@, "CWE-95"@, "A03:2021"@,
            "eval and exec run any code that reaches them."@,
            "regex"@, None,
            seq![r"\b(eval|exec)\s*\("@],
            "Use of eval/exec on possibly untrusted data."@,
            "Parse data with ast.literal_eval or json.loads instead."@,
            seq!["https://cwe.mitre.org/data/definitions/95.html"@],
        ),
        entry(
            "PY-SEC-006"@, "path-traversal"@, "high"@, "python"@, "CWE-22"@, "A01:2021"@,
            "File paths taken from requests can reach files outside the intended folder."@,
            "regex"@, None,
            seq![r"open\s*\([^)]*(request\.|input\()"@],
            "Possible path traversal: file path comes from user input."@,
            "Resolve the path and check that it stays under an allowed base folder."@,
            seq!["https://owasp.org/www-community/attacks/Path_Traversal"@],
        ),
        entry(
            "PY-SEC-007"@, "insecure-deserialization"@, "high"@, "python"@, "CWE-502"@, "A08:2021"@,
            "Unpickling untrusted data can run code."@,
            "regex"@, None,
            seq![r"pickle\.loads?\s*\("@, r"yaml\.unsafe_load\s*\("@, r"marshal\.loads\s*\("@],
            "Insecure deserialization of possibly untrusted data."@,
            "Use json, or yaml.safe_load, for data from outside."@,
            seq!["https://cwe.mitre.org/data/definitions/502.html"@],
        ),
        entry(
            "PY-SEC-008"@, "missing-auth"@, "medium"@, "python"@, "CWE-862"@, "A01:2021"@,
            "State-changing routes should check who is calling."@,
            "regex"@, None,
            seq![r#"@app\.route\([^)]*methods\s*=\s*\[[^\]]*["'](POST|PUT|DELETE)"#@],
            "State-changing route: make sure it requires authentication."@,
            "Add an authentication decorator such as @login_required."@,
            seq!["https://cwe.mitre.org/data/definitions/862.html"@],
        ),
        entry(
            "PY-SEC-009"@, "xss-template"@, "high"@, "python"@, "CWE-79"@, "A03:2021"@,
            "Rendering templates from strings or marking text safe bypasses escaping."@,
            "regex"@, None,
            seq![r"render_template_string\s*\("@, r"Markup\s*\("@, r"\|\s*safe\b"@],
            "Possible cross-site scripting through unescaped template content."@,
            "Render files with autoescaping and never mark user input as safe."@,
            seq!["https://owasp.org/www-community/attacks/xss/"@],
        ),
        entry(
            "PY-SEC-010"@, "log-injection"@, "low"@, "python"@, "CWE-117"@, "A09:2021"@,
            "Log lines formatted from input can forge log entries."@,
            "regex"@, None,
            seq![r#"(logging|logger|log)\.(info|warning|error|debug)\s*\(\s*f["']"#@],
            "Possible log injection: log message formatted from variables."@,
            "Pass values as logging arguments and strip line breaks from them."@,
            seq!["https://cwe.mitre.org/data/definitions/117.html"@],
        ),
    ]
}

/// The rule documents that ship for JavaScript and TypeScript.
pub open spec fn javascript_table() -> Seq<DocumentView> {
    seq![
        entry(
            "JS-SEC-001"@, "xss-innerhtml"@, "high"@, "javascript"@, "CWE-79"@, "A03:2021"@,
            "Assigning to innerHTML parses the value as markup."@,
            "ast"@, Some(r#"(assignment_expression left: (member_expression property: (property_identifier) @prop (#match? @prop "^(innerHTML|outerHTML)$")))"#@),
            seq![r"\.(innerHTML|outerHTML)\s*="@, r"document\.write\s*\("@],
            "Possible XSS: HTML set from a variable through innerHTML."@,
            "Use textContent, or sanitize the markup first."@,
            seq!["https://owasp.org/www-community/attacks/xss/"@],
        ),
        entry(
            "JS-SEC-002"@, "eval-injection"@, "critical"@, "javascript"@, "CWE-95"@, "A03:2021"@,
            "eval and the Function constructor run any code that reaches them."@,
            "regex"@, None,
            seq![r"\beval\s*\("@, r"new\s+Function\s*\("@, r#"setTimeout\s*\(\s*["'`]"#@],
            "Use of eval on possibly untrusted data."@,
            "Parse data with JSON.parse and call functions directly."@,
            seq!["https://cwe.mitre.org/data/definitions/95.html"@],
        ),
        entry(
            "JS-SEC-003"@, "prototype-pollution"@, "high"@, "javascript"@, "CWE-1321"@, "A03:2021"@,
            "Writing through __proto__ changes every object."@,
            "regex"@, None,
            seq![r"__proto__"@, r#"\[\s*["']constructor["']\s*\]\s*\[\s*["']prototype["']\s*\]"#@],
            "Possible prototype pollution."@,
            "Reject the keys __proto__, constructor and prototype when merging objects."@,
            seq!["https://cwe.mitre.org/data/definitions/1321.html"@],
        ),
        entry(
            "JS-SEC-004"@, "hardcoded-secrets"@, "high"@, "javascript"@, "CWE-798"@, "A07:2021"@,
            "Credentials written into source code leak with the code."@,
            "regex"@, None,
            seq![r#"(?i)(password|secret|api_?key|token)\s*[:=]\s*["'][^"']{4,}["']"#@],
            "Hardcoded secret in source code."@,
            "Read secrets from process.env or a secret store."@,
            seq!["https://cwe.mitre.org/data/definitions/798.html"@],
        ),
        entry(
            "JS-SEC-005"@, "insecure-random"@, "medium"@, "javascript"@, "CWE-330"@, "A02:2021"@,
            "Math.random is predictable and unfit for security values."@,
            "regex"@, None,
            seq![r"Math\.random\s*\("@],
            "Insecure random number generator."@,
            "Use crypto.randomBytes or crypto.getRandomValues."@,
            seq!["https://cwe.mitre.org/data/definitions/330.html"@],
        ),
        entry(
            "JS-SEC-006"@, "path-traversal"@, "high"@, "javascript"@, "CWE-22"@, "A01:2021"@,
            "File paths taken from requests can reach files outside the intended folder."@,
            "regex"@, None,
            seq![r"fs\.(readFile|readFileSync|createReadStream|writeFile)\s*\([^)]*req\.(params|query|body)"@],
            "Possible path traversal: file path comes from the request."@,
            "Resolve the path and check that it stays under an allowed base folder."@,
            seq!["https://owasp.org/www-community/attacks/Path_Traversal"@],
        ),
        entry(
            "JS-SEC-007"@, "ssrf"@, "high"@, "javascript"@, "CWE-918"@, "A10:2021"@,
            "Requests to URLs taken from input can reach internal services."@,
            "regex"@, None,
            seq![r"(fetch|axios\.(get|post)|http\.get|request)\s*\(\s*req\.(query|body|params)"@],
            "Possible server-side request forgery."@,
            "Check the URL against an allow-list of hosts."@,
            seq!["https://owasp.org/www-community/attacks/Server_Side_Request_Forgery"@],
        ),
        entry(
            "JS-SEC-008"@, "nosql-injection"@, "high"@, "javascript"@, "CWE-943"@, "A03:2021"@,
            "Query objects taken from requests can carry operators."@,
            "regex"@, None,
            seq![r"\.(find|findOne|update|deleteOne)\s*\(\s*req\.(body|query)"@, r"\$where"@],
            "Possible NoSQL injection."@,
            "Build the query from checked scalar values."@,
            seq!["https://cwe.mitre.org/data/definitions/943.html"@],
        ),
        entry(
            "JS-SEC-009"@, "insecure-deserialization"@, "high"@, "javascript"@, "CWE-502"@, "A08:2021"@,
            "Deserializing untrusted data can run code."@,
            "regex"@, None,
            seq![r"unserialize\s*\("@, r"node-serialize"@],
            "Insecure deserialization of possibly untrusted data."@,
            "Use JSON.parse for data from outside."@,
            seq!["https://cwe.mitre.org/data/definitions/502.html"@],
        ),
        entry(
            "JS-SEC-010"@, "dangerouslysetinnerhtml"@, "medium"@, "javascript"@, "CWE-79"@, "A03:2021"@,
            "dangerouslySetInnerHTML inserts raw markup into the page."@,
            "regex"@, None,
            seq![r"dangerouslySetInnerHTML"@],
            "Possible XSS through dangerouslySetInnerHTML."@,
            "Sanitize the markup, or render text instead."@,
            seq!["https://owasp.org/www-community/attacks/xss/"@],
        ),
    ]
}

/// The rule documents that ship with the library, by language key.
pub open spec fn embedded_table() -> Seq<(Seq<char>, Seq<DocumentView>)> {
    seq![("python"@, python_table()), ("javascript"@, javascript_table())]
}

/// A list of one text.
fn one(a: &str) -> (r: Vec<String>)
    ensures
        views_of(r@) == seq![a@],
{
    let r = vec![String::from_str(a)];
    assert(views_of(r@) =~= seq![a@]);
    r
}

/// A list of two texts.
fn two(a: &str, b: &str) -> (r: Vec<String>)
    ensures
        views_of(r@) == seq![a@, b@],
{
    let r = vec![String::from_str(a), String::from_str(b)];
    assert(views_of(r@) =~= seq![a@, b@]);
    r
}

/// A list of three texts.
fn three(a: &str, b: &str, c: &str) -> (r: Vec<String>)
    ensures
        views_of(r@) == seq![a@, b@, c@],
{
    let r = vec![String::from_str(a), String::from_str(b), String::from_str(c)];
    assert(views_of(r@) =~= seq![a@, b@, c@]);
    r
}

/// A rule document with every optional field but the query given.
fn document(
    id: &str,
    name: &str,
    severity: &str,
    language: &str,
    cwe: &str,
    owasp: &str,
    description: &str,
    kind: &str,
    query: Option<&str>,
    regex: Vec<String>,
    message: &str,
    fix_hint: &str,
    references: Vec<String>,
) -> (r: RuleDocument)
    ensures
        r@ == entry(
            id@,
            name@,
            severity@,
            language@,
            cwe@,
            owasp@,
            description@,
            kind@,
            match query {
                Some(q) => Some(q@),
                None => None,
            },
            views_of(regex@),
            message@,
            fix_hint@,
            views_of(references@),
        ),
{
    RuleDocument {
        id: String::from_str(id),
        name: String::from_str(name),
        severity: String::from_str(severity),
        language: String::from_str(language),
        cwe: Some(String::from_str(cwe)),
        owasp: Some(String::from_str(owasp)),
        description: String::from_str(description),
        pattern: PatternDocument {
            kind: String::from_str(kind),
            query: match query {
                Some(q) => Some(String::from_str(q)),
                None => None,
            },
            regex,
        },
        message: String::from_str(message),
        fix_hint: Some(String::from_str(fix_hint)),
        references,
    }
}

/// The rules for Python.
#[verifier::rlimit(50)]
fn python_documents() -> (r: Vec<RuleDocument>)
    ensures
        document_views(r@) == python_table(),
{
    let mut r: Vec<RuleDocument> = Vec::new();
    r.push(document(
        "PY-SEC-001", "sql-injection", "critical", "python", "CWE-89", "A03:2021",
        "SQL text built from strings at run time lets input change the query.",
        "ast", Some(r#"(call function: (attribute attribute: (identifier) @method (#match? @method "^(execute|executemany)$")) arguments: (argument_list [(binary_operator) (string (interpolation))]))"#),
        one(r#"\.execute(many)?\(\s*(f["']|["'][^"']*["']\s*(\+|%|\.format))"#),
        "Possible SQL injection: query text is assembled from variables.",
        "Pass values as query parameters: cursor.execute(\"... WHERE id = %s\", (user_id,)).",
        one("https://owasp.org/www-community/attacks/SQL_Injection"),
    ));
    r.push(document(
        "PY-SEC-002", "os-command-injection", "critical", "python", "CWE-78", "A03:2021",
        "Shell commands built from input can run arbitrary programs.",
        "regex", None,
        two(r"os\.(system|popen)\s*\(", r"subprocess\.\w+\([^)]*shell\s*=\s*True"),
        "Possible OS command injection through a shell call.",
        "Use subprocess.run with a list of arguments and shell=False.",
        one("https://owasp.org/www-community/attacks/Command_Injection"),
    ));
    r.push(document(
        "PY-SEC-003", "hardcoded-secrets", "high", "python", "CWE-798", "A07:2021",
        "Credentials written into source code leak with the code.",
        "regex", None,
        one(r#"(?i)(password|passwd|secret|api_key|apikey|token)\s*=\s*["'][^"']{4,}["']"#),
        "Hardcoded secret in source code.",
        "Read secrets from the environment or a secret store.",
        one("https://cwe.mitre.org/data/definitions/798.html"),
    ));
    r.push(document(
        "PY-SEC-004", "insecure-random", "medium", "python", "CWE-330", "A02:2021",
        "The random module is predictable and unfit for security values.",
        "regex", None,
        one(r"random\.(random|randint|choice|randrange)\s*\("),
        "Insecure random number generator.",
        "Use the secrets module for tokens and keys.",
        one("https://docs.python.org/3/library/secrets.html"),
    ));
    r.push(document(
        "PY-SEC-005", "eval-exec", "critical", "python", "CWE-95", "A03:2021",
        "eval and exec run any code that reaches them.",
        "regex", None,
        one(r"\b(eval|exec)\s*\("),
        "Use of eval/exec on possibly untrusted data.",
        "Parse data with ast.literal_eval or json.loads instead.",
        one("https://cwe.mitre.org/data/definitions/95.html"),
    ));
    r.push(document(
        "PY-SEC-006", "path-traversal", "high", "python", "CWE-22", "A01:2021",
        "File paths taken from requests can reach files outside the intended folder.",
        "regex", None,
        one(r"open\s*\([^)]*(request\.|input\()"),
        "Possible path traversal: file path comes from user input.",
        "Resolve the path and check that it stays under an allowed base folder.",
        one("https://owasp.org/www-community/attacks/Path_Traversal"),
    ));
    r.push(document(
        "PY-SEC-007", "insecure-deserialization", "high", "python", "CWE-502", "A08:2021",
        "Unpickling untrusted data can run code.",
        "regex", None,
        three(r"pickle\.loads?\s*\(", r"yaml\.unsafe_load\s*\(", r"marshal\.loads\s*\("),
        "Insecure deserialization of possibly untrusted data.",
        "Use json, or yaml.safe_load, for data from outside.",
        one("https://cwe.mitre.org/data/definitions/502.html"),
    ));
    r.push(document(
        "PY-SEC-008", "missing-auth", "medium", "python", "CWE-862", "A01:2021",
        "State-changing routes should check who is calling.",
        "regex", None,
        one(r#"@app\.route\([^)]*methods\s*=\s*\[[^\]]*["'](POST|PUT|DELETE)"#),
        "State-changing route: make sure it requires authentication.",
        "Add an authentication decorator such as @login_required.",
        one("https://cwe.mitre.org/data/definitions/862.html"),
    ));
    r.push(document(
        "PY-SEC-009", "xss-template", "high", "python", "CWE-79", "A03:2021",
        "Rendering templates from strings or marking text safe bypasses escaping.",
        "regex", None,
        three(r"render_template_string\s*\(", r"Markup\s*\(", r"\|\s*safe\b"),
        "Possible cross-site scripting through unescaped template content.",
        "Render files with autoescaping and never mark user input as safe.",
        one("https://owasp.org/www-community/attacks/xss/"),
    ));
    r.push(document(
        "PY-SEC-010", "log-injection", "low", "python", "CWE-117", "A09:2021",
        "Log lines formatted from input can forge log entries.",
        "regex", None,
        one(r#"(logging|logger|log)\.(info|warning|error|debug)\s*\(\s*f["']"#),
        "Possible log injection: log message formatted from variables.",
        "Pass values as logging arguments and strip line breaks from them.",
        one("https://cwe.mitre.org/data/definitions/117.html"),
    ));
    assert(document_views(r@) =~= python_table());
    r
}

/// The rules for JavaScript and TypeScript.
#[verifier::rlimit(50)]
fn javascript_documents() -> (r: Vec<RuleDocument>)
    ensures
        document_views(r@) == javascript_table(),
{
    let mut r: Vec<RuleDocument> = Vec::new();
    r.push(document(
        "JS-SEC-001", "xss-innerhtml", "high", "javascript", "CWE-79", "A03:2021",
        "Assigning to innerHTML parses the value as markup.",
        "ast", Some(r#"(assignment_expression left: (member_expression property: (property_identifier) @prop (#match? @prop "^(innerHTML|outerHTML)$")))"#),
        two(r"\.(innerHTML|outerHTML)\s*=", r"document\.write\s*\("),
        "Possible XSS: HTML set from a variable through innerHTML.",
        "Use textContent, or sanitize the markup first.",
        one("https://owasp.org/www-community/attacks/xss/"),
    ));
    r.push(document(
        "JS-SEC-002", "eval-injection", "critical", "javascript", "CWE-95", "A03:2021",
        "eval and the Function constructor run any code that reaches them.",
        "regex", None,
        three(r"\beval\s*\(", r"new\s+Function\s*\(", r#"setTimeout\s*\(\s*["'`]"#),
        "Use of eval on possibly untrusted data.",
        "Parse data with JSON.parse and call functions directly.",
        one("https://cwe.mitre.org/data/definitions/95.html"),
    ));
    r.push(document(
        "JS-SEC-003", "prototype-pollution", "high", "javascript", "CWE-1321", "A03:2021",
        "Writing through __proto__ changes every object.",
        "regex", None,
        two(r"__proto__", r#"\[\s*["']constructor["']\s*\]\s*\[\s*["']prototype["']\s*\]"#),
        "Possible prototype pollution.",
        "Reject the keys __proto__, constructor and prototype when merging objects.",
        one("https://cwe.mitre.org/data/definitions/1321.html"),
    ));
    r.push(document(
        "JS-SEC-004", "hardcoded-secrets", "high", "javascript", "CWE-798", "A07:2021",
        "Credentials written into source code leak with the code.",
        "regex", None,
        one(r#"(?i)(password|secret|api_?key|token)\s*[:=]\s*["'][^"']{4,}["']"#),
        "Hardcoded secret in source code.",
        "Read secrets from process.env or a secret store.",
        one("https://cwe.mitre.org/data/definitions/798.html"),
    ));
    r.push(document(
        "JS-SEC-005", "insecure-random", "medium", "javascript", "CWE-330", "A02:2021",
        "Math.random is predictable and unfit for security values.",
        "regex", None,
        one(r"Math\.random\s*\("),
        "Insecure random number generator.",
        "Use crypto.randomBytes or crypto.getRandomValues.",
        one("https://cwe.mitre.org/data/definitions/330.html"),
    ));
    r.push(document(
        "JS-SEC-006", "path-traversal", "high", "javascript", "CWE-22", "A01:2021",
        "File paths taken from requests can reach files outside the intended folder.",
        "regex", None,
        one(r"fs\.(readFile|readFileSync|createReadStream|writeFile)\s*\([^)]*req\.(params|query|body)"),
        "Possible path traversal: file path comes from the request.",
        "Resolve the path and check that it stays under an allowed base folder.",
        one("https://owasp.org/www-community/attacks/Path_Traversal"),
    ));
    r.push(document(
        "JS-SEC-007", "ssrf", "high", "javascript", "CWE-918", "A10:2021",
        "Requests to URLs taken from input can reach internal services.",
        "regex", None,
        one(r"(fetch|axios\.(get|post)|http\.get|request)\s*\(\s*req\.(query|body|params)"),
        "Possible server-side request forgery.",
        "Check the URL against an allow-list of hosts.",
        one("https://owasp.org/www-community/attacks/Server_Side_Request_Forgery"),
    ));
    r.push(document(
        "JS-SEC-008", "nosql-injection", "high", "javascript", "CWE-943", "A03:2021",
        "Query objects taken from requests can carry operators.",
        "regex", None,
        two(r"\.(find|findOne|update|deleteOne)\s*\(\s*req\.(body|query)", r"\$where"),
        "Possible NoSQL injection.",
        "Build the query from checked scalar values.",
        one("https://cwe.mitre.org/data/definitions/943.html"),
    ));
    r.push(document(
        "JS-SEC-009", "insecure-deserialization", "high", "javascript", "CWE-502", "A08:2021",
        "Deserializing untrusted data can run code.",
        "regex", None,
        two(r"unserialize\s*\(", r"node-serialize"),
        "Insecure deserialization of possibly untrusted data.",
        "Use JSON.parse for data from outside.",
        one("https://cwe.mitre.org/data/definitions/502.html"),
    ));
    r.push(document(
        "JS-SEC-010", "dangerouslysetinnerhtml", "medium", "javascript", "CWE-79", "A03:2021",
        "dangerouslySetInnerHTML inserts raw markup into the page.",
        "regex", None,
        one(r"dangerouslySetInnerHTML"),
        "Possible XSS through dangerouslySetInnerHTML.",
        "Sanitize the markup, or render text instead.",
        one("https://owasp.org/www-community/attacks/xss/"),
    ));
    assert(document_views(r@) =~= javascript_table());
    r
}

/// The rule documents that ship with the library, by language key.
pub fn embedded_sources() -> (r: Vec<(String, Vec<RuleDocument>)>)
    ensures
        source_views(r@) == embedded_table(),
{
    let mut r: Vec<(String, Vec<RuleDocument>)> = Vec::new();
    r.push((String::from_str("python"), python_documents()));
    r.push((String::from_str("javascript"), javascript_documents()));
    assert(source_views(r@) =~= embedded_table());
    r
}

} // verus!
