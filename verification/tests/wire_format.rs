use ark_bls12_381::{G1Affine, G1Projective, G2Affine};
use ark_ec::AffineRepr;
use ark_serialize::{CanonicalDeserialize, CanonicalSerialize, Compress, Validate};
use ceremony::framing::{frame_vec, frame_vec_vec, inner_ranges, vec_layout, vec_vec_header, FramingError, VecLayout, VecVecHeader};

/// Each element in its compressed canonical form.
fn element_bytes<T: CanonicalSerialize>(v: &[T]) -> Vec<Vec<u8>> {
    v.iter()
        .map(|x| {
            let mut b = Vec::new();
            x.serialize_with_mode(&mut b, Compress::Yes).unwrap();
            b
        })
        .collect()
}

fn framed<T: CanonicalSerialize>(v: &[T]) -> Vec<u8> {
    frame_vec(&element_bytes(v))
}

fn framed_nested<T: CanonicalSerialize>(v: &[Vec<T>]) -> Vec<u8> {
    frame_vec_vec(&v.iter().map(|inner| element_bytes(inner)).collect())
}

fn canonical<T: CanonicalSerialize>(v: &T) -> Vec<u8> {
    let mut b = Vec::new();
    v.serialize_with_mode(&mut b, Compress::Yes).unwrap();
    b
}

fn unframe<T: CanonicalDeserialize>(raw: &[u8]) -> Vec<T> {
    let l: VecLayout = vec_layout(raw).unwrap();
    if l.count == 0 {
        return Vec::new();
    }
    raw[8..]
        .chunks(l.elem_size)
        .map(|c| T::deserialize_with_mode(c, Compress::Yes, Validate::Yes).unwrap())
        .collect()
}

fn unframe_nested<T: CanonicalDeserialize>(raw: &[u8]) -> Vec<Vec<T>> {
    match vec_vec_header(raw).unwrap() {
        VecVecHeader::Empty => Vec::new(),
        VecVecHeader::AllEmpty { count } => (0..count).map(|_| Vec::new()).collect(),
        VecVecHeader::NeedElementSize { count, first_element } => {
            let mut rest: &[u8] = &raw[first_element..];
            let _first = T::deserialize_with_mode(&mut rest, Compress::Yes, Validate::No).unwrap();
            let es = raw.len() - first_element - rest.len();
            inner_ranges(raw, count, es)
                .unwrap()
                .iter()
                .map(|r| {
                    raw[r.start..r.start + r.count * es]
                        .chunks(es)
                        .map(|c| T::deserialize_with_mode(c, Compress::Yes, Validate::Yes).unwrap())
                        .collect()
                })
                .collect()
        },
    }
}

fn sample_g2_vec() -> Vec<G2Affine> {
    let g = G2Affine::generator();
    let mut pts = vec![G2Affine::zero()];
    let mut acc = g.into_group();
    for _ in 0..5 {
        pts.push(acc.into());
        acc += acc;
    }
    pts
}

fn sample_g1_vec_vec() -> Vec<Vec<G1Affine>> {
    let g = G1Affine::generator();
    (0..3)
        .map(|shift| {
            let mut pts = Vec::new();
            let mut acc = G1Projective::from(g);
            for _ in 0..shift + 2 {
                pts.push(acc.into());
                acc += acc;
            }
            pts
        })
        .collect()
}

#[test]
fn test_vec_wire_format_identical() {
    let v = sample_g2_vec();

    let orig_bytes = canonical(&v);
    let par_bytes = framed(&v);
    assert_eq!(orig_bytes, par_bytes, "serialized bytes must be identical");

    // Cross-deserialize: framed bytes read with the canonical reader
    let from_par = Vec::<G2Affine>::deserialize_with_mode(&par_bytes[..], Compress::Yes, Validate::Yes).unwrap();
    assert_eq!(from_par, v);

    // Cross-deserialize: canonical bytes read through the framing
    let from_orig: Vec<G2Affine> = unframe(&orig_bytes);
    assert_eq!(from_orig, v);
}

#[test]
fn test_vec_empty() {
    let v: Vec<G2Affine> = vec![];
    let orig_bytes = canonical(&v);
    let par_bytes = framed(&v);
    assert_eq!(orig_bytes, par_bytes);
    let rt: Vec<G2Affine> = unframe(&par_bytes);
    assert_eq!(rt, v);
}

#[test]
fn test_vec_vec_wire_format_identical() {
    let v = sample_g1_vec_vec();

    let orig_bytes = canonical(&v);
    let par_bytes = framed_nested(&v);
    assert_eq!(orig_bytes, par_bytes, "serialized bytes must be identical");

    // Cross-deserialize
    let from_par = Vec::<Vec<G1Affine>>::deserialize_with_mode(&par_bytes[..], Compress::Yes, Validate::Yes).unwrap();
    assert_eq!(from_par, v);

    let from_orig: Vec<Vec<G1Affine>> = unframe_nested(&orig_bytes);
    assert_eq!(from_orig, v);
}

#[test]
fn test_vec_vec_empty_outer() {
    let v: Vec<Vec<G1Affine>> = vec![];
    let orig_bytes = canonical(&v);
    let par_bytes = framed_nested(&v);
    assert_eq!(orig_bytes, par_bytes);
    let rt: Vec<Vec<G1Affine>> = unframe_nested(&par_bytes);
    assert_eq!(rt, v);
}

#[test]
fn nested_all_empty_inner_vectors() {
    let v: Vec<Vec<G1Affine>> = vec![vec![], vec![]];
    let bytes = framed_nested(&v);
    assert_eq!(bytes.len(), 24);
    assert_eq!(vec_vec_header(&bytes), Ok(VecVecHeader::AllEmpty { count: 2 }));
    let mut longer = bytes.clone();
    longer.push(0);
    assert_eq!(vec_vec_header(&longer), Err(FramingError::UnexpectedTrailingBytes));
}

#[test]
fn nested_first_inner_vector_empty() {
    let g = G1Affine::generator();
    let v: Vec<Vec<G1Affine>> = vec![vec![], vec![g], vec![], vec![g, G1Affine::zero()]];
    let bytes = framed_nested(&v);
    assert_eq!(bytes, canonical(&v));
    // the first element of the first non-empty inner vector follows two counts
    // and the outer count
    assert_eq!(vec_vec_header(&bytes), Ok(VecVecHeader::NeedElementSize { count: 4, first_element: 24 }));
    assert_eq!(&bytes[24..24 + 48], &canonical(&g)[..]);
    let back: Vec<Vec<G1Affine>> = unframe_nested(&bytes);
    assert_eq!(back, v);
    // an inner count cut off while stepping over empty inner vectors
    assert_eq!(vec_vec_header(&bytes[..12]), Err(FramingError::TruncatedInnerLength));
    let all_empty_then_short = [3, 0, 0, 0, 0, 0, 0, 0, 0, 0, 0, 0, 0, 0, 0, 0, 0, 0, 0, 0, 0, 0, 0, 0];
    assert_eq!(vec_vec_header(&all_empty_then_short), Err(FramingError::TruncatedInnerLength));
}

#[test]
fn framing_errors() {
    assert_eq!(vec_layout(&[1, 0, 0]), Err(FramingError::MissingLength));
    // count 2 with 3 element bytes
    assert_eq!(vec_layout(&[2, 0, 0, 0, 0, 0, 0, 0, 1, 2, 3]), Err(FramingError::UnevenElements));
    assert_eq!(vec_layout(&[2, 0, 0, 0, 0, 0, 0, 0, 1, 2]), Ok(VecLayout { count: 2, elem_size: 1 }));
    assert_eq!(vec_layout(&[0, 0, 0, 0, 0, 0, 0, 0, 9, 9]), Ok(VecLayout { count: 0, elem_size: 0 }));
    assert_eq!(vec_vec_header(&[0; 4]), Err(FramingError::MissingLength));
    assert_eq!(vec_vec_header(&[1, 0, 0, 0, 0, 0, 0, 0, 1]), Err(FramingError::TruncatedInnerLength));
    assert_eq!(vec_vec_header(&[0; 8]), Ok(VecVecHeader::Empty));
    // one inner vector announcing 2 elements of 4 bytes, with only 4 bytes present
    let raw = [1, 0, 0, 0, 0, 0, 0, 0, 2, 0, 0, 0, 0, 0, 0, 0, 1, 2, 3, 4];
    assert_eq!(vec_vec_header(&raw), Ok(VecVecHeader::NeedElementSize { count: 1, first_element: 16 }));
    assert_eq!(inner_ranges(&raw, 1, 4), Err(FramingError::TruncatedInnerData));
    assert_eq!(inner_ranges(&raw, 2, 2).unwrap_err(), FramingError::TruncatedInnerLength);
    let ok = inner_ranges(&raw, 1, 2).unwrap();
    assert_eq!(ok.len(), 1);
    assert_eq!(ok[0].start, 16);
    assert_eq!(ok[0].count, 2);
}
