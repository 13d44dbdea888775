//! The code-context search tool's data shapes, and the verified
//! recommendation drawn from a proxy speed test.  The HTTP and index I/O
//! live outside the library.

use vstd::prelude::*;

use crate::text::{dec_chars, str_eq, u64_to_string};

verus! {

/// One search request: the project to search and the query.
pub struct AcemcpRequest {
    pub project_root_path: String,
    pub query: String,
}

/// The search tool's configuration.
pub struct AcemcpConfig {
    pub base_url: Option<String>,
    pub token: Option<String>,
    pub batch_size: Option<u32>,
    pub max_lines_per_blob: Option<u32>,
    pub text_extensions: Option<Vec<String>>,
    pub exclude_patterns: Option<Vec<String>>,
    pub smart_wait_range: Option<(u64, u64)>,
}

/// The arguments of a configuration save.
pub struct SaveAcemcpConfigArgs {
    pub base_url: String,
    pub token: String,
    pub batch_size: u32,
    pub max_lines_per_blob: u32,
    pub text_extensions: Vec<String>,
    pub exclude_patterns: Vec<String>,
    pub watch_debounce_ms: Option<u64>,
    pub proxy_enabled: Option<bool>,
    pub proxy_host: Option<String>,
    pub proxy_port: Option<u16>,
    pub proxy_type: Option<String>,
}

/// The arguments of a connection test.
pub struct TestAcemcpArgs {
    pub base_url: String,
    pub token: String,
}

/// Outcome of a connection test.
pub struct TestConnectionResult {
    pub success: bool,
    pub message: String,
}

/// The configuration as shown to a caller.
pub struct AcemcpConfigResponse {
    pub base_url: Option<String>,
    pub token: Option<String>,
    pub batch_size: u32,
    pub max_lines_per_blob: u32,
    pub text_extensions: Vec<String>,
    pub exclude_patterns: Vec<String>,
    pub watch_debounce_ms: u64,
    pub proxy_enabled: bool,
    pub proxy_host: String,
    pub proxy_port: u16,
    pub proxy_type: String,
}

/// Outcome of a direct debug search.
pub struct DebugSearchResult {
    pub success: bool,
    pub result: Option<String>,
    pub error: Option<String>,
}

/// Index state of a project.
#[derive(Clone, Copy, PartialEq, Eq, Structural, Debug)]
pub enum IndexStatus {
    Idle,
    Indexing,
    Synced,
    Failed,
}

/// Index state of one file.
#[derive(Clone, Copy, PartialEq, Eq, Structural, Debug)]
pub enum FileIndexStatusKind {
    Indexed,
    Pending,
}

/// One file's index state, with its project-relative path.
pub struct FileIndexStatus {
    pub path: String,
    pub status: FileIndexStatusKind,
}

/// The index state of every indexable file of a project.
pub struct ProjectFilesStatus {
    pub project_root: String,
    pub files: Vec<FileIndexStatus>,
}

/// One measurement of the speed test: the timings of an endpoint through
/// the proxy and directly.
pub struct SpeedTestMetric {
    pub name: String,
    pub metric_type: String,
    pub proxy_time_ms: Option<u64>,
    pub direct_time_ms: Option<u64>,
    pub success: bool,
    pub error: Option<String>,
}

/// Mathematical model of a measurement: only the timings matter to the
/// recommendation.
pub ghost struct MetricModel {
    pub proxy_time_ms: Option<u64>,
    pub direct_time_ms: Option<u64>,
}

impl View for SpeedTestMetric {
    type V = MetricModel;

    open spec fn view(&self) -> MetricModel {
        MetricModel { proxy_time_ms: self.proxy_time_ms, direct_time_ms: self.direct_time_ms }
    }
}

/// The views of a sequence of measurements.
pub open spec fn metric_views(s: Seq<SpeedTestMetric>) -> Seq<MetricModel> {
    s.map_values(|m: SpeedTestMetric| m@)
}

/// Sum of the proxy timings that are present.
pub open spec fn proxy_total(ms: Seq<MetricModel>) -> int
    decreases ms.len(),
{
    if ms.len() == 0 {
        0
    } else {
        proxy_total(ms.drop_last()) + (match ms.last().proxy_time_ms {
            Some(t) => t as int,
            None => 0,
        })
    }
}

/// How many proxy timings are present.
pub open spec fn proxy_count(ms: Seq<MetricModel>) -> int
    decreases ms.len(),
{
    if ms.len() == 0 {
        0
    } else {
        proxy_count(ms.drop_last()) + (if ms.last().proxy_time_ms is Some {
            1int
        } else {
            0int
        })
    }
}

/// Sum of the direct timings that are present.
pub open spec fn direct_total(ms: Seq<MetricModel>) -> int
    decreases ms.len(),
{
    if ms.len() == 0 {
        0
    } else {
        direct_total(ms.drop_last()) + (match ms.last().direct_time_ms {
            Some(t) => t as int,
            None => 0,
        })
    }
}

/// How many direct timings are present.
pub open spec fn direct_count(ms: Seq<MetricModel>) -> int
    decreases ms.len(),
{
    if ms.len() == 0 {
        0
    } else {
        direct_count(ms.drop_last()) + (if ms.last().direct_time_ms is Some {
            1int
        } else {
            0int
        })
    }
}

/// The recommendation drawn from the measurements: proxy when it averaged
/// faster, direct when it averaged slower, with the change in percent.
pub open spec fn recommendation_text(ms: Seq<MetricModel>, mode: Seq<char>) -> Seq<char> {
    if mode != "compare"@ {
        "\u{5355}\u{6a21}\u{5f0f}\u{6d4b}\u{8bd5}\u{5b8c}\u{6210}"@
    } else if proxy_count(ms) == 0 || direct_count(ms) == 0 {
        "\u{65e0}\u{6cd5}\u{5bf9}\u{6bd4}\u{ff0c}\u{90e8}\u{5206}\u{6d4b}\u{8bd5}\u{5931}\u{8d25}"@
    } else {
        let proxy_avg = proxy_total(ms) / proxy_count(ms);
        let direct_avg = direct_total(ms) / direct_count(ms);
        if proxy_avg < direct_avg {
            "\u{1f7e2} \u{5efa}\u{8bae}\u{542f}\u{7528}\u{4ee3}\u{7406}\u{ff0c}\u{6027}\u{80fd}\u{63d0}\u{5347}\u{7ea6} "@
                + dec_chars((direct_avg - proxy_avg) * 100 / direct_avg) + "%"@
        } else if direct_avg < proxy_avg {
            "\u{1f534} \u{5efa}\u{8bae}\u{76f4}\u{8fde}\u{ff0c}\u{4ee3}\u{7406}\u{6027}\u{80fd}\u{4e0b}\u{964d}\u{7ea6} "@
                + dec_chars((proxy_avg - direct_avg) * 100 / proxy_avg) + "%"@
        } else {
            "\u{1f7e1} \u{4ee3}\u{7406}\u{4e0e}\u{76f4}\u{8fde}\u{6027}\u{80fd}\u{76f8}\u{5f53}"@
        }
    }
}

/// Draws the recommendation from a finished speed test.
pub fn generate_recommendation(metrics: &Vec<SpeedTestMetric>, mode: &str) -> (r: String)
    ensures
        r@ == recommendation_text(metric_views(metrics@), mode@),
{
    let ghost ms = metric_views(metrics@);
    if !str_eq(mode, "compare") {
        return String::from_str("\u{5355}\u{6a21}\u{5f0f}\u{6d4b}\u{8bd5}\u{5b8c}\u{6210}");
    }
    let n = metrics.len();
    let mut p_total: u128 = 0;
    let mut p_count: u64 = 0;
    let mut d_total: u128 = 0;
    let mut d_count: u64 = 0;
    let mut i: usize = 0;
    while i < n
        invariant
            n == metrics@.len(),
            i <= n,
            ms == metric_views(metrics@),
            p_total == proxy_total(ms.take(i as int)),
            p_count == proxy_count(ms.take(i as int)),
            d_total == direct_total(ms.take(i as int)),
            d_count == direct_count(ms.take(i as int)),
            p_total <= (p_count as u128) * 0xffff_ffff_ffff_ffffu128,
            d_total <= (d_count as u128) * 0xffff_ffff_ffff_ffffu128,
            p_count <= i,
            d_count <= i,
        decreases n - i,
    {
        proof {
            assert(ms.take(i + 1).drop_last() =~= ms.take(i as int));
            assert(ms.take(i + 1).last() == ms[i as int]);
            assert(((p_count as int) + 1) * 0xffff_ffff_ffff_ffff == (p_count as int)
                * 0xffff_ffff_ffff_ffff + 0xffff_ffff_ffff_ffff) by (nonlinear_arith);
            assert(((d_count as int) + 1) * 0xffff_ffff_ffff_ffff == (d_count as int)
                * 0xffff_ffff_ffff_ffff + 0xffff_ffff_ffff_ffff) by (nonlinear_arith);
        }
        match metrics[i].proxy_time_ms {
            Some(t) => {
                p_total = p_total + (t as u128);
                p_count = p_count + 1;
            },
            None => {},
        }
        match metrics[i].direct_time_ms {
            Some(t) => {
                d_total = d_total + (t as u128);
                d_count = d_count + 1;
            },
            None => {},
        }
        i += 1;
    }
    proof {
        assert(ms.take(n as int) =~= ms);
    }
    if p_count == 0 || d_count == 0 {
        return String::from_str(
            "\u{65e0}\u{6cd5}\u{5bf9}\u{6bd4}\u{ff0c}\u{90e8}\u{5206}\u{6d4b}\u{8bd5}\u{5931}\u{8d25}",
        );
    }
    let proxy_avg = p_total / (p_count as u128);
    let direct_avg = d_total / (d_count as u128);
    proof {
        assert(proxy_avg <= 0xffff_ffff_ffff_ffffu128) by (nonlinear_arith)
            requires
                p_count >= 1,
                p_total <= (p_count as u128) * 0xffff_ffff_ffff_ffffu128,
                proxy_avg == p_total / (p_count as u128),
        ;
        assert(direct_avg <= 0xffff_ffff_ffff_ffffu128) by (nonlinear_arith)
            requires
                d_count >= 1,
                d_total <= (d_count as u128) * 0xffff_ffff_ffff_ffffu128,
                direct_avg == d_total / (d_count as u128),
        ;
    }
    if proxy_avg < direct_avg {
        let pct = (direct_avg - proxy_avg) * 100 / direct_avg;
        proof {
            assert(pct <= 100) by (nonlinear_arith)
                requires
                    proxy_avg < direct_avg,
                    pct == ((direct_avg - proxy_avg) as int) * 100 / (direct_avg as int),
            ;
        }
        let mut out = String::from_str(
            "\u{1f7e2} \u{5efa}\u{8bae}\u{542f}\u{7528}\u{4ee3}\u{7406}\u{ff0c}\u{6027}\u{80fd}\u{63d0}\u{5347}\u{7ea6} ",
        );
        let pct_str = u64_to_string(pct as u64);
        out.append(pct_str.as_str());
        out.append("%");
        proof {
            assert(out@ =~= recommendation_text(ms, mode@));
        }
        out
    } else if direct_avg < proxy_avg {
        let pct = (proxy_avg - direct_avg) * 100 / proxy_avg;
        proof {
            assert(pct <= 100) by (nonlinear_arith)
                requires
                    direct_avg < proxy_avg,
                    pct == ((proxy_avg - direct_avg) as int) * 100 / (proxy_avg as int),
            ;
        }
        let mut out = String::from_str(
            "\u{1f534} \u{5efa}\u{8bae}\u{76f4}\u{8fde}\u{ff0c}\u{4ee3}\u{7406}\u{6027}\u{80fd}\u{4e0b}\u{964d}\u{7ea6} ",
        );
        let pct_str = u64_to_string(pct as u64);
        out.append(pct_str.as_str());
        out.append("%");
        proof {
            assert(out@ =~= recommendation_text(ms, mode@));
        }
        out
    } else {
        String::from_str("\u{1f7e1} \u{4ee3}\u{7406}\u{4e0e}\u{76f4}\u{8fde}\u{6027}\u{80fd}\u{76f8}\u{5f53}")
    }
}

} // verus!
