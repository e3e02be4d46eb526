use vstd::prelude::*;
use vstd::string::*;

use crate::error::AppError;

verus! {

/// One stream configuration a device advertises: a channel count, a
/// supported sample-rate range, and whether its sample format is floating
/// point.
#[derive(Clone, Copy, Debug, PartialEq, Eq, Structural)]
pub struct StreamFormatRange {
    pub channels: u16,
    pub min_rate: u32,
    pub max_rate: u32,
    pub is_float: bool,
}

/// A concrete negotiated stream format.
#[derive(Clone, Copy, Debug, PartialEq, Eq, Structural)]
pub struct StreamFormat {
    pub channels: u16,
    pub sample_rate: u32,
}

/// The float configuration with the highest maximum sample rate; on a tie,
/// the one advertised last.
pub open spec fn spec_best_float_idx(cfgs: Seq<StreamFormatRange>) -> Option<int>
    decreases cfgs.len(),
{
    if cfgs.len() == 0 {
        None
    } else {
        let last = cfgs.len() - 1;
        let front = spec_best_float_idx(cfgs.drop_last());
        if !cfgs[last].is_float {
            front
        } else {
            match front {
                None => Some(last),
                Some(j) => if cfgs[j].max_rate > cfgs[last].max_rate {
                    Some(j)
                } else {
                    Some(last)
                },
            }
        }
    }
}

/// The input format an engine start selects: the float configuration with
/// the highest sample rate, taken at that rate.
pub open spec fn spec_choose_input(cfgs: Seq<StreamFormatRange>) -> Option<StreamFormat> {
    match spec_best_float_idx(cfgs) {
        None => None,
        Some(k) => Some(
            StreamFormat { channels: cfgs[k].channels, sample_rate: cfgs[k].max_rate },
        ),
    }
}

/// Law: the chosen input configuration is a float configuration and no
/// float configuration offers a higher rate; nothing is chosen only when
/// no float configuration exists.
pub proof fn lemma_best_float_is_max(cfgs: Seq<StreamFormatRange>)
    ensures
        match spec_best_float_idx(cfgs) {
            Some(k) => 0 <= k < cfgs.len() && cfgs[k].is_float && forall|j: int|
                0 <= j < cfgs.len() && (#[trigger] cfgs[j]).is_float ==> cfgs[j].max_rate
                    <= cfgs[k].max_rate,
            None => forall|j: int| 0 <= j < cfgs.len() ==> !(#[trigger] cfgs[j]).is_float,
        },
    decreases cfgs.len(),
{
    if cfgs.len() > 0 {
        lemma_best_float_is_max(cfgs.drop_last());
        assert(forall|j: int|
            0 <= j < cfgs.len() - 1 ==> #[trigger] cfgs[j] == cfgs.drop_last()[j]);
    }
}

/// Chooses the input stream format: the float configuration with the
/// highest maximum sample rate, at that rate; an input device without any
/// float configuration is an audio error.
pub fn choose_input_config(cfgs: &Vec<StreamFormatRange>) -> (r: Result<StreamFormat, AppError>)
    ensures
        match spec_choose_input(cfgs@) {
            Some(f) => r matches Ok(g) && g == f,
            None => r matches Err(AppError::Audio(m)) && m@
                == "the input device offers no float format"@,
        },
{
    let n = cfgs.len();
    let mut best: Option<usize> = None;
    let mut i: usize = 0;
    while i < n
        invariant
            i <= n,
            n == cfgs@.len(),
            match best {
                Some(k) => k < i && spec_best_float_idx(cfgs@.take(i as int)) == Some(k as int),
                None => spec_best_float_idx(cfgs@.take(i as int)) is None,
            },
        decreases n - i,
    {
        proof {
            assert(cfgs@.take(i + 1).drop_last() =~= cfgs@.take(i as int));
            assert(cfgs@.take(i + 1).last() == cfgs@[i as int]);
        }
        if cfgs[i].is_float {
            best = match best {
                None => Some(i),
                Some(k) => if cfgs[k].max_rate > cfgs[i].max_rate {
                    Some(k)
                } else {
                    Some(i)
                },
            };
        }
        i = i + 1;
    }
    proof {
        assert(cfgs@.take(n as int) =~= cfgs@);
    }
    match best {
        Some(k) => Ok(StreamFormat { channels: cfgs[k].channels, sample_rate: cfgs[k].max_rate }),
        None => Err(AppError::Audio(String::from_str("the input device offers no float format"))),
    }
}

/// The first float configuration matching the target channel count whose
/// rate range covers the target rate.
pub open spec fn spec_first_exact_idx(cfgs: Seq<StreamFormatRange>, target: StreamFormat) -> Option<
    int,
>
    decreases cfgs.len(),
{
    if cfgs.len() == 0 {
        None
    } else if cfgs[0].is_float && cfgs[0].channels == target.channels && cfgs[0].min_rate
        <= target.sample_rate && target.sample_rate <= cfgs[0].max_rate {
        Some(0)
    } else {
        match spec_first_exact_idx(cfgs.drop_first(), target) {
            Some(j) => Some(j + 1),
            None => None,
        }
    }
}

/// The first float configuration, whatever its channels and rates.
pub open spec fn spec_first_float_idx(cfgs: Seq<StreamFormatRange>) -> Option<int>
    decreases cfgs.len(),
{
    if cfgs.len() == 0 {
        None
    } else if cfgs[0].is_float {
        Some(0)
    } else {
        match spec_first_float_idx(cfgs.drop_first()) {
            Some(j) => Some(j + 1),
            None => None,
        }
    }
}

/// The output format an engine start selects against the chosen input
/// format: an exact channel-count and sample-rate match when one exists,
/// otherwise the first float configuration at its highest rate.
pub open spec fn spec_choose_output(cfgs: Seq<StreamFormatRange>, target: StreamFormat) -> Option<
    StreamFormat,
> {
    match spec_first_exact_idx(cfgs, target) {
        Some(k) => Some(
            StreamFormat { channels: target.channels, sample_rate: target.sample_rate },
        ),
        None => match spec_first_float_idx(cfgs) {
            Some(k) => Some(
                StreamFormat { channels: cfgs[k].channels, sample_rate: cfgs[k].max_rate },
            ),
            None => None,
        },
    }
}

/// A position matching exactly, with no exact match before it, is the
/// first exact match.
proof fn lemma_first_exact_at(cfgs: Seq<StreamFormatRange>, target: StreamFormat, k: int)
    requires
        0 <= k < cfgs.len(),
        cfgs[k].is_float && cfgs[k].channels == target.channels && cfgs[k].min_rate
            <= target.sample_rate && target.sample_rate <= cfgs[k].max_rate,
        forall|j: int|
            0 <= j < k ==> !((#[trigger] cfgs[j]).is_float && cfgs[j].channels == target.channels
                && cfgs[j].min_rate <= target.sample_rate && target.sample_rate
                <= cfgs[j].max_rate),
    ensures
        spec_first_exact_idx(cfgs, target) == Some(k),
    decreases k,
{
    if k > 0 {
        lemma_first_exact_at(cfgs.drop_first(), target, k - 1);
    }
}

/// A list without an exact match has none.
proof fn lemma_first_exact_none(cfgs: Seq<StreamFormatRange>, target: StreamFormat)
    requires
        forall|j: int|
            0 <= j < cfgs.len() ==> !((#[trigger] cfgs[j]).is_float && cfgs[j].channels
                == target.channels && cfgs[j].min_rate <= target.sample_rate && target.sample_rate
                <= cfgs[j].max_rate),
    ensures
        spec_first_exact_idx(cfgs, target) is None,
    decreases cfgs.len(),
{
    if cfgs.len() > 0 {
        lemma_first_exact_none(cfgs.drop_first(), target);
    }
}

/// A float position with no float before it is the first float.
proof fn lemma_first_float_at(cfgs: Seq<StreamFormatRange>, k: int)
    requires
        0 <= k < cfgs.len(),
        cfgs[k].is_float,
        forall|j: int| 0 <= j < k ==> !(#[trigger] cfgs[j]).is_float,
    ensures
        spec_first_float_idx(cfgs) == Some(k),
    decreases k,
{
    if k > 0 {
        lemma_first_float_at(cfgs.drop_first(), k - 1);
    }
}

/// A list without a float configuration has no first float.
proof fn lemma_first_float_none(cfgs: Seq<StreamFormatRange>)
    requires
        forall|j: int| 0 <= j < cfgs.len() ==> !(#[trigger] cfgs[j]).is_float,
    ensures
        spec_first_float_idx(cfgs) is None,
    decreases cfgs.len(),
{
    if cfgs.len() > 0 {
        lemma_first_float_none(cfgs.drop_first());
    }
}

/// Chooses the output stream format against the chosen input format:
/// prefers an exact channel-count and sample-rate match, falls back to the
/// first float configuration at its highest rate, and reports an output
/// device without any float configuration as an audio error.
pub fn choose_output_config(cfgs: &Vec<StreamFormatRange>, target: StreamFormat) -> (r: Result<
    StreamFormat,
    AppError,
>)
    ensures
        match spec_choose_output(cfgs@, target) {
            Some(f) => r matches Ok(g) && g == f,
            None => r matches Err(AppError::Audio(m)) && m@
                == "the output device offers no float format"@,
        },
{
    let n = cfgs.len();
    let mut i: usize = 0;
    while i < n
        invariant
            i <= n,
            n == cfgs@.len(),
            forall|j: int|
                0 <= j < i ==> !((#[trigger] cfgs@[j]).is_float && cfgs@[j].channels
                    == target.channels && cfgs@[j].min_rate <= target.sample_rate
                    && target.sample_rate <= cfgs@[j].max_rate),
        decreases n - i,
    {
        let c = cfgs[i];
        if c.is_float && c.channels == target.channels && c.min_rate <= target.sample_rate
            && target.sample_rate <= c.max_rate {
            proof {
                lemma_first_exact_at(cfgs@, target, i as int);
            }
            return Ok(StreamFormat { channels: target.channels, sample_rate: target.sample_rate });
        }
        i = i + 1;
    }
    proof {
        lemma_first_exact_none(cfgs@, target);
    }
    let mut i: usize = 0;
    while i < n
        invariant
            i <= n,
            n == cfgs@.len(),
            spec_first_exact_idx(cfgs@, target) is None,
            forall|j: int| 0 <= j < i ==> !(#[trigger] cfgs@[j]).is_float,
        decreases n - i,
    {
        if cfgs[i].is_float {
            proof {
                lemma_first_float_at(cfgs@, i as int);
            }
            return Ok(StreamFormat { channels: cfgs[i].channels, sample_rate: cfgs[i].max_rate });
        }
        i = i + 1;
    }
    proof {
        lemma_first_float_none(cfgs@);
    }
    Err(AppError::Audio(String::from_str("the output device offers no float format")))
}

/// The whole contract of a format negotiation, one case per outcome.
pub open spec fn spec_negotiate_formats(
    input_cfgs: Seq<StreamFormatRange>,
    output_cfgs: Seq<StreamFormatRange>,
    r: Result<(StreamFormat, StreamFormat), AppError>,
) -> bool {
    match spec_choose_input(input_cfgs) {
        None => r matches Err(AppError::Audio(m)) && m@
            == "the input device offers no float format"@,
        Some(inf) => match spec_choose_output(output_cfgs, inf) {
            None => r matches Err(AppError::Audio(m)) && m@
                == "the output device offers no float format"@,
            Some(outf) => if inf.channels != outf.channels {
                r matches Err(AppError::Audio(m)) && m@
                    == "input and output channel counts differ"@
            } else {
                r matches Ok(p) && p == (inf, outf)
            },
        },
    }
}

/// Negotiates both stream formats for an engine start: picks the input
/// format, picks the output format against it, and fails fast when the
/// resulting channel counts differ (no channel remixing is attempted).
pub fn negotiate_formats(
    input_cfgs: &Vec<StreamFormatRange>,
    output_cfgs: &Vec<StreamFormatRange>,
) -> (r: Result<(StreamFormat, StreamFormat), AppError>)
    ensures
        spec_negotiate_formats(input_cfgs@, output_cfgs@, r),
{
    let inf = match choose_input_config(input_cfgs) {
        Ok(f) => f,
        Err(e) => {
            return Err(e);
        },
    };
    let outf = match choose_output_config(output_cfgs, inf) {
        Ok(f) => f,
        Err(e) => {
            return Err(e);
        },
    };
    if inf.channels != outf.channels {
        return Err(AppError::Audio(String::from_str("input and output channel counts differ")));
    }
    Ok((inf, outf))
}

} // verus!
