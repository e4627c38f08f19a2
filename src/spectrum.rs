//! Audio spectrum ingestion: once per frame, the latest analysis of the
//! audio input becomes a buffer of a fixed number of bands for the GPU.
use vstd::prelude::*;

verus! {

/// Number of bands in the GPU spectrum buffer.
pub const SPECTRUM_BANDS: usize = 128;

/// The buffer uploaded for `latest`: its first bands, padded with zero
/// (the bit pattern of 0.0) up to the band count; all zero without input.
pub open spec fn spectrum_upload(latest: Option<Seq<u32>>) -> Seq<u32> {
    Seq::new(
        SPECTRUM_BANDS as nat,
        |i: int|
            match latest {
                Some(s) => if i < s.len() { s[i] } else { 0u32 },
                None => 0u32,
            },
    )
}

/// Builds the spectrum buffer of this frame from the latest analysis (band
/// magnitudes as float bit patterns), or from nothing if no source plays.
pub fn ingest_spectrum(latest: Option<&[u32]>) -> (r: Vec<u32>)
    ensures
        r@ == spectrum_upload(
            match latest {
                Some(s) => Some(s@),
                None => None,
            },
        ),
{
    let ghost l = match latest {
        Some(s) => Some(s@),
        None => None,
    };
    let mut out: Vec<u32> = Vec::with_capacity(SPECTRUM_BANDS);
    let mut i: usize = 0;
    while i < SPECTRUM_BANDS
        invariant
            i <= SPECTRUM_BANDS,
            l == (match latest {
                Some(s) => Some(s@),
                None => None,
            }),
            out@ == spectrum_upload(l).subrange(0, i as int),
        decreases SPECTRUM_BANDS - i,
    {
        let v: u32 = match latest {
            Some(s) => if i < s.len() { s[i] } else { 0u32 },
            None => 0u32,
        };
        out.push(v);
        proof {
            assert(out@ =~= spectrum_upload(l).subrange(0, i + 1));
        }
        i = i + 1;
    }
    proof {
        assert(out@ =~= spectrum_upload(l));
    }
    out
}

/// The spectrum buffer of a frame: export frames take no live input, so
/// that they depend on the export job alone; live frames take the latest
/// analysis.
pub fn frame_spectrum(exporting: bool, latest: Option<&[u32]>) -> (r: Vec<u32>)
    ensures
        exporting ==> r@ == spectrum_upload(None),
        !exporting ==> r@ == spectrum_upload(
            match latest {
                Some(s) => Some(s@),
                None => None,
            },
        ),
{
    if exporting {
        ingest_spectrum(None)
    } else {
        ingest_spectrum(latest)
    }
}

/// No input and silent input give the same buffer: passes cannot tell
/// absence from silence.
pub proof fn lemma_absence_is_silence(silence: Seq<u32>)
    requires
        forall|i: int| 0 <= i < silence.len() ==> #[trigger] silence[i] == 0,
    ensures
        spectrum_upload(None) == spectrum_upload(Some(silence)),
{
    assert(spectrum_upload(None) =~= spectrum_upload(Some(silence)));
}

} // verus!
