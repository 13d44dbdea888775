//! The documentation-lookup tool's data shapes and its verified text
//! formatting.  The HTTP side lives outside the library; only the pure
//! formatting and classification are here.

use vstd::prelude::*;

use crate::text::{dec_chars, u64_to_string};

verus! {

/// One documentation query: the library identifier, an optional topic,
/// version and page.
pub struct DocsRequest {
    pub library: String,
    pub topic: Option<String>,
    pub version: Option<String>,
    pub page: Option<u32>,
}

/// Documentation service configuration: an optional API key and the base
/// URL queried.
pub struct DocsConfig {
    pub api_key: Option<String>,
    pub base_url: String,
}

/// Pagination of a documentation answer.
pub struct PaginationInfo {
    pub current_page: u32,
    pub total_pages: u32,
    pub has_next: bool,
}

/// Outcome of a connection test against the documentation service.
pub struct TestConnectionResponse {
    pub success: bool,
    pub message: String,
    pub preview: Option<String>,
}

/// The part of the documentation configuration shown to a caller.
pub struct DocsConfigResponse {
    pub api_key: Option<String>,
}

/// The documentation service's website address.
pub fn docs_website_url() -> (r: String)
    ensures
        r@ == "https://context7.com"@,
{
    String::from_str("https://context7.com")
}

/// The documentation service's API base address.
pub fn docs_api_base_url() -> (r: String)
    ensures
        r@ == "https://context7.com"@ + "/api/v2"@,
{
    let mut out = docs_website_url();
    out.append("/api/v2");
    out
}

impl Default for DocsConfig {
    /// No API key, querying the stock API address.
    fn default() -> (r: DocsConfig)
        ensures
            r.api_key is None,
            r.base_url@ == "https://context7.com"@ + "/api/v2"@,
    {
        DocsConfig { api_key: None, base_url: docs_api_base_url() }
    }
}

/// The documentation-lookup tool.
pub struct DocsTool;

/// How an HTTP failure of the documentation service reads.
pub open spec fn error_message_text(status_code: u16, error_text: Seq<char>) -> Seq<char> {
    if status_code == 401 {
        "Invalid or expired API key"@
    } else if status_code == 404 {
        "Library not found: "@ + error_text
    } else if status_code == 429 {
        "Rate limit reached, consider configuring an API Key"@
    } else if 500 <= status_code && status_code <= 599 {
        "Docs server error: "@ + error_text
    } else {
        error_text
    }
}

/// The markdown document a successful documentation answer is wrapped in.
pub open spec fn text_response_text(
    content: Seq<char>,
    library: Seq<char>,
    topic: Option<Seq<char>>,
    version: Option<Seq<char>>,
    page: Option<u32>,
) -> Seq<char> {
    "# "@ + library + " Documentation\n\n"@ + (match topic {
        Some(t) => "**Topic**: "@ + t + "\n"@,
        None => Seq::<char>::empty(),
    }) + (match version {
        Some(v) => "**Version**: "@ + v + "\n"@,
        None => Seq::<char>::empty(),
    }) + (match page {
        Some(p) => "**Page**: "@ + dec_chars(p as int) + "\n"@,
        None => Seq::<char>::empty(),
    }) + "\n---\n\n"@ + content + "\n\n---\nSource: Docs - "@ + library + "\n"@
}

/// The answer text when a library identifier is unknown and the search for
/// similar names found nothing either.
pub open spec fn not_found_text(library: Seq<char>, website: Seq<char>) -> Seq<char> {
    "**Library \""@ + library
        + "\" not found**\n\nPlease check the library identifier. Format: `owner/repo`, e.g.:\n- `vercel/next.js`\n- `facebook/react`\n- `spring-projects/spring-framework`\n\nTip: Search for libraries at [Docs]("@
        + website + ")"@
}

/// How a failed connection test reads: the status mapped to a short
/// explanation.
pub open spec fn test_error_text(
    status_code: u16,
    error_text: Seq<char>,
    library: Seq<char>,
) -> Seq<char> {
    if status_code == 401 {
        "API \u{5bc6}\u{94a5}\u{65e0}\u{6548}\u{6216}\u{5df2}\u{8fc7}\u{671f}"@
    } else if status_code == 404 {
        "\u{5e93} \""@ + library
            + "\" \u{4e0d}\u{5b58}\u{5728}\u{ff0c}\u{8bf7}\u{68c0}\u{67e5}\u{5e93}\u{6807}\u{8bc6}\u{7b26}\u{662f}\u{5426}\u{6b63}\u{786e}"@
    } else if status_code == 429 {
        "\u{901f}\u{7387}\u{9650}\u{5236}\u{5df2}\u{8fbe}\u{4e0a}\u{9650}\u{ff0c}\u{5efa}\u{8bae}\u{914d}\u{7f6e} API Key"@
    } else if 500 <= status_code && status_code <= 599 {
        "Docs \u{670d}\u{52a1}\u{5668}\u{9519}\u{8bef}: "@ + error_text
    } else {
        "\u{8bf7}\u{6c42}\u{5931}\u{8d25} (\u{72b6}\u{6001}\u{7801}: "@ + dec_chars(
            status_code as int,
        ) + "): "@ + error_text
    }
}

/// Formats the failure of a connection test.
pub fn format_test_error(status_code: u16, error_text: &str, library: &str) -> (r: String)
    ensures
        r@ == test_error_text(status_code, error_text@, library@),
{
    if status_code == 401 {
        String::from_str("API \u{5bc6}\u{94a5}\u{65e0}\u{6548}\u{6216}\u{5df2}\u{8fc7}\u{671f}")
    } else if status_code == 404 {
        let mut out = String::from_str("\u{5e93} \"");
        out.append(library);
        out.append(
            "\" \u{4e0d}\u{5b58}\u{5728}\u{ff0c}\u{8bf7}\u{68c0}\u{67e5}\u{5e93}\u{6807}\u{8bc6}\u{7b26}\u{662f}\u{5426}\u{6b63}\u{786e}",
        );
        proof {
            assert(out@ =~= test_error_text(status_code, error_text@, library@));
        }
        out
    } else if status_code == 429 {
        String::from_str(
            "\u{901f}\u{7387}\u{9650}\u{5236}\u{5df2}\u{8fbe}\u{4e0a}\u{9650}\u{ff0c}\u{5efa}\u{8bae}\u{914d}\u{7f6e} API Key",
        )
    } else if 500 <= status_code && status_code <= 599 {
        let mut out = String::from_str("Docs \u{670d}\u{52a1}\u{5668}\u{9519}\u{8bef}: ");
        out.append(error_text);
        out
    } else {
        let mut out = String::from_str("\u{8bf7}\u{6c42}\u{5931}\u{8d25} (\u{72b6}\u{6001}\u{7801}: ");
        let code = u64_to_string(status_code as u64);
        out.append(code.as_str());
        out.append("): ");
        out.append(error_text);
        proof {
            assert(out@ =~= test_error_text(status_code, error_text@, library@));
        }
        out
    }
}

/// A star count rounded for display: plain below a thousand, else
/// thousands with one decimal place, rounded to the nearest tenth.
pub open spec fn stars_text(stars: int) -> Seq<char> {
    if stars >= 1000 {
        let t = (stars + 50) / 100;
        dec_chars(t / 10) + "."@ + dec_chars(t % 10) + "K"@
    } else {
        dec_chars(stars)
    }
}

impl DocsTool {
    /// Formats an HTTP failure of the documentation service.
    pub fn format_error_message(status_code: u16, error_text: &str) -> (r: String)
        ensures
            r@ == error_message_text(status_code, error_text@),
    {
        if status_code == 401 {
            String::from_str("Invalid or expired API key")
        } else if status_code == 404 {
            let mut out = String::from_str("Library not found: ");
            out.append(error_text);
            out
        } else if status_code == 429 {
            String::from_str("Rate limit reached, consider configuring an API Key")
        } else if 500 <= status_code && status_code <= 599 {
            let mut out = String::from_str("Docs server error: ");
            out.append(error_text);
            out
        } else {
            String::from_str(error_text)
        }
    }

    /// Wraps a documentation answer in its markdown frame.
    pub fn format_text_response(content: &str, request: &DocsRequest) -> (r: String)
        ensures
            r@ == text_response_text(
                content@,
                request.library@,
                match request.topic {
                    Some(ref t) => Some(t@),
                    None => None,
                },
                match request.version {
                    Some(ref v) => Some(v@),
                    None => None,
                },
                request.page,
            ),
    {
        let mut out = String::from_str("# ");
        out.append(request.library.as_str());
        out.append(" Documentation\n\n");
        match &request.topic {
            Some(t) => {
                out.append("**Topic**: ");
                out.append(t.as_str());
                out.append("\n");
            },
            None => {},
        }
        match &request.version {
            Some(v) => {
                out.append("**Version**: ");
                out.append(v.as_str());
                out.append("\n");
            },
            None => {},
        }
        match request.page {
            Some(p) => {
                out.append("**Page**: ");
                let page = u64_to_string(p as u64);
                out.append(page.as_str());
                out.append("\n");
            },
            None => {},
        }
        out.append("\n---\n\n");
        out.append(content);
        out.append("\n\n---\nSource: Docs - ");
        out.append(request.library.as_str());
        out.append("\n");
        proof {
            assert(out@ =~= text_response_text(
                content@,
                request.library@,
                match request.topic {
                    Some(ref t) => Some(t@),
                    None => None,
                },
                match request.version {
                    Some(ref v) => Some(v@),
                    None => None,
                },
                request.page,
            ));
        }
        out
    }

    /// Formats the answer for an unknown library with no suggestions.
    pub fn format_not_found_no_suggestions(library: &str) -> (r: String)
        ensures
            r@ == not_found_text(library@, "https://context7.com"@),
    {
        let website = docs_website_url();
        let mut out = String::from_str("**Library \"");
        out.append(library);
        out.append(
            "\" not found**\n\nPlease check the library identifier. Format: `owner/repo`, e.g.:\n- `vercel/next.js`\n- `facebook/react`\n- `spring-projects/spring-framework`\n\nTip: Search for libraries at [Docs](",
        );
        out.append(website.as_str());
        out.append(")");
        proof {
            assert(out@ =~= not_found_text(library@, "https://context7.com"@));
        }
        out
    }

    /// Formats a star count for display.
    pub fn format_stars(stars: u64) -> (r: String)
        ensures
            r@ == stars_text(stars as int),
    {
        if stars >= 1000 {
            let t128 = ((stars as u128) + 50) / 100;
            proof {
                assert(((stars as int) + 50) / 100 < 0x1_0000_0000_0000_0000int);
            }
            let t = t128 as u64;
            let mut out = u64_to_string(t / 10);
            out.append(".");
            let frac = u64_to_string(t % 10);
            out.append(frac.as_str());
            out.append("K");
            proof {
                assert(out@ =~= stars_text(stars as int));
            }
            out
        } else {
            u64_to_string(stars)
        }
    }
}

} // verus!
