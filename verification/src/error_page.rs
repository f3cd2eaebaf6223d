use vstd::prelude::*;
use vstd::string::*;
use crate::strutil::push_char;

verus! {

/// How one character of untrusted text is rendered inside the diagnostic
/// document: the HTML metacharacters become entities, everything else is kept.
pub open spec fn spec_escape_char(c: char) -> Seq<char> {
    if c == '&' {
        "&amp;"@
    } else if c == '<' {
        "&lt;"@
    } else if c == '>' {
        "&gt;"@
    } else if c == '"' {
        "&quot;"@
    } else if c == '\'' {
        "&#39;"@
    } else {
        seq![c]
    }
}

/// The HTML-escaped form of a text: each character rendered by
/// `spec_escape_char`, in order.
pub open spec fn spec_escape(s: Seq<char>) -> Seq<char>
    decreases s.len(),
{
    if s.len() == 0 {
        Seq::empty()
    } else {
        spec_escape(s.drop_last()) + spec_escape_char(s.last())
    }
}

/// Escapes the HTML metacharacters `&`, `<`, `>`, `"` and `'`.
pub fn html_escape(s: &str) -> (r: String)
    ensures
        r@ == spec_escape(s@),
{
    let len = s.unicode_len();
    let mut out = String::new();
    let mut i: usize = 0;
    while i < len
        invariant
            i <= len,
            len == s@.len(),
            out@ == spec_escape(s@.take(i as int)),
        decreases len - i,
    {
        let c = s.get_char(i);
        if c == '&' {
            out.append("&amp;");
        } else if c == '<' {
            out.append("&lt;");
        } else if c == '>' {
            out.append("&gt;");
        } else if c == '"' {
            out.append("&quot;");
        } else if c == '\'' {
            out.append("&#39;");
        } else {
            push_char(&mut out, c);
        }
        proof {
            assert(s@.take(i as int + 1).drop_last() =~= s@.take(i as int));
            assert(s@.take(i as int + 1).last() == s@[i as int]);
        }
        i = i + 1;
    }
    proof {
        assert(s@.take(len as int) =~= s@);
    }
    out
}

/// Escaped text never contains a raw `<`, `>` or `"`: everything the inputs
/// contributed to the document is neutralized.
pub proof fn lemma_escape_no_raw_metachars(s: Seq<char>)
    ensures
        forall|i: int|
            0 <= i < spec_escape(s).len() ==> (spec_escape(s)[i] != '<' && spec_escape(s)[i]
                != '>' && spec_escape(s)[i] != '"'),
    decreases s.len(),
{
    reveal_strlit("&amp;");
    reveal_strlit("&lt;");
    reveal_strlit("&gt;");
    reveal_strlit("&quot;");
    reveal_strlit("&#39;");
    if s.len() == 0 {
    } else {
        lemma_escape_no_raw_metachars(s.drop_last());
        let head = spec_escape(s.drop_last());
        let e = spec_escape_char(s.last());
        assert(forall|i: int| 0 <= i < e.len() ==> (e[i] != '<' && e[i] != '>' && e[i] != '"')) by {
            assert("&amp;"@ =~= seq!['&', 'a', 'm', 'p', ';']);
            assert("&lt;"@ =~= seq!['&', 'l', 't', ';']);
            assert("&gt;"@ =~= seq!['&', 'g', 't', ';']);
            assert("&quot;"@ =~= seq!['&', 'q', 'u', 'o', 't', ';']);
            assert("&#39;"@ =~= seq!['&', '#', '3', '9', ';']);
        };
        assert forall|i: int| 0 <= i < spec_escape(s).len() implies (spec_escape(s)[i] != '<'
            && spec_escape(s)[i] != '>' && spec_escape(s)[i] != '"') by {
            if i < head.len() {
                assert(spec_escape(s)[i] == head[i]);
            } else {
                assert(spec_escape(s)[i] == e[i - head.len()]);
            }
        }
    }
}

/// The escaped log lines, joined with single newlines.
pub open spec fn spec_join_escaped(lines: Seq<Seq<char>>) -> Seq<char>
    decreases lines.len(),
{
    if lines.len() == 0 {
        Seq::empty()
    } else if lines.len() == 1 {
        spec_escape(lines[0])
    } else {
        spec_join_escaped(lines.drop_last()) + "\n"@ + spec_escape(lines.last())
    }
}

/// The text shown in the log box: the joined escaped lines, or a fixed
/// placeholder when there is nothing to show.
pub open spec fn spec_log_block(lines: Seq<Seq<char>>) -> Seq<char> {
    if spec_join_escaped(lines).len() == 0 {
        "No log output available."@
    } else {
        spec_join_escaped(lines)
    }
}

/// Everything of the document that stands before the failure message.
pub open spec fn spec_doc_head() -> Seq<char> {
    r#"<!DOCTYPE html>
<html>
<head>
<meta charset="utf-8">
<style>
  * { margin: 0; padding: 0; box-sizing: border-box; }
  body {
    background: #1a1a1a;
    color: #e0e0e0;
    font-family: -apple-system, BlinkMacSystemFont, "Segoe UI", sans-serif;
    display: flex;
    align-items: center;
    justify-content: center;
    min-height: 100vh;
    padding: 2rem;
  }
  .container {
    max-width: 640px;
    width: 100%;
  }
  h1 {
    color: #ff6b6b;
    font-size: 1.4rem;
    margin-bottom: 1rem;
  }
  .message {
    color: #aaa;
    margin-bottom: 1.5rem;
    line-height: 1.5;
  }
  .log-box {
    background: #111;
    border: 1px solid #333;
    border-radius: 6px;
    padding: 1rem;
    font-family: "SF Mono", "Fira Code", monospace;
    font-size: 0.75rem;
    line-height: 1.6;
    white-space: pre-wrap;
    word-break: break-all;
    max-height: 300px;
    overflow-y: auto;
    margin-bottom: 1.5rem;
    color: #999;
  }
  button {
    background: #333;
    color: #e0e0e0;
    border: 1px solid #555;
    border-radius: 6px;
    padding: 0.6rem 1.5rem;
    font-size: 0.9rem;
    cursor: pointer;
    transition: background 0.15s;
  }
  button:hover {
    background: #444;
  }
</style>
</head>
<body>
  <div class="container">
    <h1>Backend failed to start</h1>
    <p class="message">"#@
}

fn doc_head() -> (r: &'static str)
    ensures
        r@ == spec_doc_head(),
{
    r#"<!DOCTYPE html>
<html>
<head>
<meta charset="utf-8">
<style>
  * { margin: 0; padding: 0; box-sizing: border-box; }
  body {
    background: #1a1a1a;
    color: #e0e0e0;
    font-family: -apple-system, BlinkMacSystemFont, "Segoe UI", sans-serif;
    display: flex;
    align-items: center;
    justify-content: center;
    min-height: 100vh;
    padding: 2rem;
  }
  .container {
    max-width: 640px;
    width: 100%;
  }
  h1 {
    color: #ff6b6b;
    font-size: 1.4rem;
    margin-bottom: 1rem;
  }
  .message {
    color: #aaa;
    margin-bottom: 1.5rem;
    line-height: 1.5;
  }
  .log-box {
    background: #111;
    border: 1px solid #333;
    border-radius: 6px;
    padding: 1rem;
    font-family: "SF Mono", "Fira Code", monospace;
    font-size: 0.75rem;
    line-height: 1.6;
    white-space: pre-wrap;
    word-break: break-all;
    max-height: 300px;
    overflow-y: auto;
    margin-bottom: 1.5rem;
    color: #999;
  }
  button {
    background: #333;
    color: #e0e0e0;
    border: 1px solid #555;
    border-radius: 6px;
    padding: 0.6rem 1.5rem;
    font-size: 0.9rem;
    cursor: pointer;
    transition: background 0.15s;
  }
  button:hover {
    background: #444;
  }
</style>
</head>
<body>
  <div class="container">
    <h1>Backend failed to start</h1>
    <p class="message">"#
}

/// Everything of the document that stands between the failure message and the
/// log box.
pub open spec fn spec_doc_mid() -> Seq<char> {
    r#"</p>
    <div class="log-box">"#@
}

fn doc_mid() -> (r: &'static str)
    ensures
        r@ == spec_doc_mid(),
{
    r#"</p>
    <div class="log-box">"#
}

/// Everything of the document that stands after the log box, including the
/// control that invokes the restart operation.
pub open spec fn spec_doc_tail() -> Seq<char> {
    r#"</div>
    <button onclick="window.__TAURI__?.invoke('restart_backend')">
      Retry
    </button>
  </div>
</body>
</html>"#@
}

fn doc_tail() -> (r: &'static str)
    ensures
        r@ == spec_doc_tail(),
{
    r#"</div>
    <button onclick="window.__TAURI__?.invoke('restart_backend')">
      Retry
    </button>
  </div>
</body>
</html>"#
}

/// The whole diagnostic document for a failure message and a tail of log
/// lines: a fixed template around the escaped message and the escaped,
/// newline-joined log lines (or a placeholder when those are empty).
pub open spec fn spec_error_html(msg: Seq<char>, lines: Seq<Seq<char>>) -> Seq<char> {
    spec_doc_head() + spec_escape(msg) + spec_doc_mid() + spec_log_block(lines) + spec_doc_tail()
}

/// Renders the self-contained diagnostic document shown when the backend
/// could not be started or never became healthy.
pub fn generate_error_html(message: &str, log_lines: &[String]) -> (r: String)
    ensures
        r@ == spec_error_html(message@, log_lines@.map_values(|l: String| l@)),
{
    let ghost views = log_lines@.map_values(|l: String| l@);
    let escaped_message = html_escape(message);
    let n = log_lines.len();
    let mut joined = String::new();
    let mut i: usize = 0;
    while i < n
        invariant
            i <= n,
            n == log_lines@.len(),
            views == log_lines@.map_values(|l: String| l@),
            views.len() == n,
            joined@ == spec_join_escaped(views.take(i as int)),
        decreases n - i,
    {
        let esc = html_escape(log_lines[i].as_str());
        if i > 0 {
            joined.append("\n");
        }
        joined.append(esc.as_str());
        proof {
            assert(views[i as int] == log_lines@[i as int]@);
            assert(views.take(i as int + 1).drop_last() =~= views.take(i as int));
            assert(views.take(i as int + 1).last() == views[i as int]);
        }
        i = i + 1;
    }
    proof {
        assert(views.take(n as int) =~= views);
    }
    let mut out = String::new();
    out.append(doc_head());
    out.append(escaped_message.as_str());
    out.append(doc_mid());
    if joined.as_str().is_empty() {
        out.append("No log output available.");
    } else {
        out.append(joined.as_str());
    }
    out.append(doc_tail());
    out
}

/// Each log line's escaped text stands, in order, as one contiguous span of
/// the joined block.
pub proof fn lemma_join_embeds_each_line(lines: Seq<Seq<char>>, j: int)
    requires
        0 <= j < lines.len(),
    ensures
        exists|off: int|
            {
                &&& 0 <= off
                &&& off + spec_escape(lines[j]).len() <= spec_join_escaped(lines).len()
                &&& #[trigger] spec_join_escaped(lines).subrange(
                    off,
                    off + spec_escape(lines[j]).len() as int,
                ) == spec_escape(lines[j])
            },
    decreases lines.len(),
{
    let e = spec_escape(lines[j]);
    let whole = spec_join_escaped(lines);
    reveal_strlit("\n");
    if lines.len() == 1 {
        assert(whole.subrange(0, 0 + e.len() as int) =~= e);
    } else if j == lines.len() - 1 {
        let prev = spec_join_escaped(lines.drop_last());
        let off = prev.len() as int + 1;
        assert(whole == prev + "\n"@ + spec_escape(lines.last()));
        assert(whole.subrange(off, off + e.len() as int) =~= e);
    } else {
        lemma_join_embeds_each_line(lines.drop_last(), j);
        let prev = spec_join_escaped(lines.drop_last());
        assert(lines.drop_last()[j] == lines[j]);
        let off = choose|off: int|
            {
                &&& 0 <= off
                &&& off + spec_escape(lines.drop_last()[j]).len() <= prev.len()
                &&& #[trigger] prev.subrange(
                    off,
                    off + spec_escape(lines.drop_last()[j]).len() as int,
                ) == spec_escape(lines.drop_last()[j])
            };
        assert(whole == prev + "\n"@ + spec_escape(lines.last()));
        assert(whole.subrange(off, off + e.len() as int) =~= prev.subrange(
            off,
            off + e.len() as int,
        ));
    }
}

/// The rendered diagnostic embeds the log block verbatim: the document carries
/// the joined escaped log lines (or the placeholder) as one contiguous span,
/// directly after the template text and the escaped message.
pub proof fn lemma_diagnostic_embeds_log_block(msg: Seq<char>, lines: Seq<Seq<char>>)
    ensures
        ({
            let html = spec_error_html(msg, lines);
            let off = spec_doc_head().len() + spec_escape(msg).len() + spec_doc_mid().len();
            html.subrange(off as int, off as int + spec_log_block(lines).len() as int) == spec_log_block(lines)
        }),
{
    let html = spec_error_html(msg, lines);
    let off = spec_doc_head().len() + spec_escape(msg).len() + spec_doc_mid().len();
    assert(html.subrange(off as int, off as int + spec_log_block(lines).len() as int) =~= spec_log_block(lines));
}

/// Every log line handed to the diagnostic is embedded, escaped, verbatim
/// in the rendered document.
pub proof fn lemma_diagnostic_embeds_each_line(msg: Seq<char>, lines: Seq<Seq<char>>, j: int)
    requires
        0 <= j < lines.len(),
        spec_join_escaped(lines).len() > 0,
    ensures
        exists|off: int|
            {
                &&& 0 <= off
                &&& off + spec_escape(lines[j]).len() <= spec_error_html(msg, lines).len()
                &&& #[trigger] spec_error_html(msg, lines).subrange(
                    off,
                    off + spec_escape(lines[j]).len() as int,
                ) == spec_escape(lines[j])
            },
{
    let e = spec_escape(lines[j]);
    let html = spec_error_html(msg, lines);
    let block = spec_log_block(lines);
    let base = spec_doc_head().len() + spec_escape(msg).len() + spec_doc_mid().len();
    lemma_join_embeds_each_line(lines, j);
    let off1 = choose|off: int|
        {
            &&& 0 <= off
            &&& off + spec_escape(lines[j]).len() <= spec_join_escaped(lines).len()
            &&& #[trigger] spec_join_escaped(lines).subrange(
                off,
                off + spec_escape(lines[j]).len() as int,
            ) == spec_escape(lines[j])
        };
    let off = base + off1;
    assert(block == spec_join_escaped(lines));
    assert(html.subrange(off, off + e.len() as int) =~= block.subrange(
        off1,
        off1 + e.len() as int,
    ));
}

} // verus!
