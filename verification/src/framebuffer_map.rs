//! Planning of frame-buffer memory mappings: which byte range of each
//! file descriptor must be mapped so that every plane is covered, with the
//! range start aligned down to the page size and every plane checked
//! against its file's total size. The mapping itself is an operating
//! system call; everything that decides what to map is verified here.

use vstd::prelude::*;

verus! {

/// Why a frame buffer cannot be mapped.
#[derive(Debug, Clone, Copy, PartialEq, Eq, Structural)]
pub enum MemoryMappedFrameBufferError {
    /// A plane's byte range exceeds the total size of its file.
    PlaneOutOfBounds { index: usize, offset: usize, len: usize, fd_len: usize },
    /// A plane reports no offset.
    InvalidOffset { index: usize },
    /// The mapping call itself failed with the given operating system
    /// error code.
    MemoryMapError(i32),
    /// The mapping was created read-only but write access was requested.
    NotWritable,
}

/// One plane to be mapped: its file descriptor, offset and length, and
/// the total size of the descriptor's file, zero when unknown.
#[derive(Debug, Clone, Copy, PartialEq, Eq, Structural)]
pub struct PlaneRequest {
    pub fd: i32,
    pub offset: Option<usize>,
    pub len: usize,
    pub fd_len: usize,
}

/// One per-descriptor mapping range: the descriptor, the aligned start,
/// the end of the last plane, and the recorded total file size.
#[derive(Debug, Clone, Copy, PartialEq, Eq, Structural)]
pub struct MapRange {
    pub fd: i32,
    pub start: usize,
    pub end: usize,
    pub total: usize,
}

/// First range index for `fd`, or the length when none exists yet.
pub open spec fn spec_range_idx(rs: Seq<MapRange>, fd: i32, i: int) -> int
    decreases rs.len() - i,
{
    if i < 0 || i >= rs.len() {
        rs.len() as int
    } else if rs[i].fd == fd {
        i
    } else {
        spec_range_idx(rs, fd, i + 1)
    }
}

/// One step of the plan: fold plane `p` (at `index`) into the ranges.
pub open spec fn spec_plan_step(
    rs: Seq<MapRange>,
    p: PlaneRequest,
    index: int,
    page: int,
) -> Result<Seq<MapRange>, MemoryMappedFrameBufferError> {
    match p.offset {
        None => Err(MemoryMappedFrameBufferError::InvalidOffset { index: index as usize }),
        Some(offset) => {
            let k = spec_range_idx(rs, p.fd, 0);
            let cur = if k < rs.len() {
                rs[k]
            } else {
                MapRange { fd: p.fd, start: offset, end: offset, total: p.fd_len }
            };
            if cur.total > 0 && offset + p.len > cur.total {
                Err(
                    MemoryMappedFrameBufferError::PlaneOutOfBounds {
                        index: index as usize,
                        offset,
                        len: p.len,
                        fd_len: cur.total,
                    },
                )
            } else {
                let aligned = offset - (offset as int % page);
                let ns = if aligned < cur.start {
                    aligned
                } else {
                    cur.start as int
                };
                let ne = if offset + p.len > cur.end {
                    offset + p.len
                } else {
                    cur.end as int
                };
                let nr = MapRange {
                    fd: p.fd,
                    start: ns as usize,
                    end: ne as usize,
                    total: cur.total,
                };
                if k < rs.len() {
                    Ok(rs.update(k, nr))
                } else {
                    Ok(rs.push(nr))
                }
            }
        },
    }
}

/// The ranges after folding the planes from `i` on into `rs`.
pub open spec fn spec_plan_from(
    planes: Seq<PlaneRequest>,
    i: int,
    rs: Seq<MapRange>,
    page: int,
) -> Result<Seq<MapRange>, MemoryMappedFrameBufferError>
    decreases planes.len() - i,
{
    if i < 0 || i >= planes.len() {
        Ok(rs)
    } else {
        match spec_plan_step(rs, planes[i], i, page) {
            Err(e) => Err(e),
            Ok(nrs) => spec_plan_from(planes, i + 1, nrs, page),
        }
    }
}

/// The complete plan of a plane list.
pub open spec fn spec_plan(planes: Seq<PlaneRequest>, page: int) -> Result<
    Seq<MapRange>,
    MemoryMappedFrameBufferError,
> {
    spec_plan_from(planes, 0, Seq::empty(), page)
}

fn range_idx(rs: &Vec<MapRange>, fd: i32) -> (r: usize)
    ensures
        r == spec_range_idx(rs@, fd, 0),
        r <= rs@.len(),
        r < rs@.len() ==> rs@[r as int].fd == fd,
{
    let n = rs.len();
    proof {
        assert(spec_range_idx(rs@, fd, 0) == spec_range_idx(rs@, fd, 0));
    }
    let mut i: usize = 0;
    while i < n && rs[i].fd != fd
        invariant
            i <= n,
            n == rs@.len(),
            spec_range_idx(rs@, fd, 0) == spec_range_idx(rs@, fd, i as int),
        decreases n - i,
    {
        i = i + 1;
    }
    i
}

/// Compute the per-descriptor mapping ranges for a plane list: planes of
/// one descriptor share one range, whose start is the smallest
/// page-aligned plane offset and whose end is the largest plane end; a
/// plane without an offset, or one that exceeds its file's known total
/// size, fails with the matching error.
pub fn plan_mappings(planes: &Vec<PlaneRequest>, page_size: usize) -> (r: Result<
    Vec<MapRange>,
    MemoryMappedFrameBufferError,
>)
    requires
        page_size > 0,
        forall|i: int|
            0 <= i < planes@.len() ==> (((#[trigger] planes@[i]).offset) matches Some(o) ==> o
                + planes@[i].len <= usize::MAX),
    ensures
        match r {
            Ok(rs) => spec_plan(planes@, page_size as int) == Ok::<
                Seq<MapRange>,
                MemoryMappedFrameBufferError,
            >(rs@),
            Err(e) => spec_plan(planes@, page_size as int) == Err::<
                Seq<MapRange>,
                MemoryMappedFrameBufferError,
            >(e),
        },
{
    let n = planes.len();
    let mut rs: Vec<MapRange> = Vec::new();
    for i in 0..n
        invariant
            n == planes@.len(),
            page_size > 0,
            forall|j: int|
                0 <= j < planes@.len() ==> (((#[trigger] planes@[j]).offset) matches Some(o)
                    ==> o + planes@[j].len <= usize::MAX),
            spec_plan(planes@, page_size as int) == spec_plan_from(
                planes@,
                i as int,
                rs@,
                page_size as int,
            ),
    {
        let p = planes[i];
        let offset = match p.offset {
            None => {
                return Err(MemoryMappedFrameBufferError::InvalidOffset { index: i });
            },
            Some(o) => o,
        };
        let k = range_idx(&rs, p.fd);
        let cur: MapRange = if k < rs.len() {
            rs[k]
        } else {
            MapRange { fd: p.fd, start: offset, end: offset, total: p.fd_len }
        };
        if cur.total > 0 && offset + p.len > cur.total {
            return Err(
                MemoryMappedFrameBufferError::PlaneOutOfBounds {
                    index: i,
                    offset,
                    len: p.len,
                    fd_len: cur.total,
                },
            );
        }
        proof {
            assert(offset % page_size <= offset) by (nonlinear_arith)
                requires
                    page_size > 0,
                    offset >= 0,
            ;
        }
        let aligned = offset - offset % page_size;
        let ns = if aligned < cur.start {
            aligned
        } else {
            cur.start
        };
        let ne = if offset + p.len > cur.end {
            offset + p.len
        } else {
            cur.end
        };
        let nr = MapRange { fd: p.fd, start: ns, end: ne, total: cur.total };
        let ghost pre = rs@;
        if k < rs.len() {
            rs[k] = nr;
            proof {
                assert(rs@ =~= pre.update(k as int, nr));
            }
        } else {
            rs.push(nr);
        }
    }
    Ok(rs)
}

} // verus!
