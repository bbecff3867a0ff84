//! Gesture datasets read from the APDS-9960 gesture FIFO, and telling gestures from noise.

use vstd::prelude::*;

verus! {

/// Number of datasets the APDS-9960's gesture FIFO holds.
pub const APDS_9960_GESTURE_FIFO_SIZE: usize = 32;

/// Readings at or below this value on all four photodiodes are noise.
pub const GESTURE_THRESHOLD: u8 = 4;

/// One gesture dataset: the readings of the up, down, left and right photodiodes.
#[derive(Debug, Clone, Copy, PartialEq, Eq, Structural)]
pub struct GestureDataset {
    pub up: u8,
    pub down: u8,
    pub left: u8,
    pub right: u8,
}

/// The dataset type of the interrupt driven variant.
pub type Gesture = GestureDataset;

/// A dataset is noise when no reading exceeds the threshold.
pub open spec fn noise(g: GestureDataset) -> bool {
    g.up <= GESTURE_THRESHOLD && g.down <= GESTURE_THRESHOLD && g.left <= GESTURE_THRESHOLD
        && g.right <= GESTURE_THRESHOLD
}

/// The `i`-th dataset of raw FIFO bytes: four consecutive bytes up, down, left, right.
pub open spec fn dataset_at(data: Seq<u8>, i: int) -> GestureDataset {
    GestureDataset {
        up: data[4 * i],
        down: data[4 * i + 1],
        left: data[4 * i + 2],
        right: data[4 * i + 3],
    }
}

/// Whether some complete dataset in the raw bytes is more than noise.
pub open spec fn has_gesture(data: Seq<u8>) -> bool {
    exists|i: int| 0 <= i < data.len() / 4 && !noise(#[trigger] dataset_at(data, i))
}

impl GestureDataset {
    /// Whether this dataset holds just noise.
    pub fn is_noise(&self) -> (r: bool)
        ensures
            r == noise(*self),
    {
        self.up <= GESTURE_THRESHOLD && self.down <= GESTURE_THRESHOLD && self.left
            <= GESTURE_THRESHOLD && self.right <= GESTURE_THRESHOLD
    }

    /// Whether some reading exceeds the threshold, that is, this dataset is not noise.
    pub fn is_any(&self) -> (r: bool)
        ensures
            r == !noise(*self),
    {
        self.up > GESTURE_THRESHOLD || self.down > GESTURE_THRESHOLD || self.left
            > GESTURE_THRESHOLD || self.right > GESTURE_THRESHOLD
    }
}

/// Splits raw FIFO bytes into datasets of four bytes; trailing bytes that do not make a whole
/// dataset are ignored.
pub fn decode_gesture_datasets(data: &[u8]) -> (r: Vec<GestureDataset>)
    ensures
        r@.len() == data@.len() / 4,
        forall|i: int| 0 <= i < r@.len() ==> #[trigger] r@[i] == dataset_at(data@, i),
{
    let count: usize = data.len() / 4;
    let mut r: Vec<GestureDataset> = Vec::new();
    let mut i: usize = 0;
    while i < count
        invariant
            count == data@.len() / 4,
            i <= count,
            r@.len() == i,
            forall|j: int| 0 <= j < i ==> #[trigger] r@[j] == dataset_at(data@, j),
        decreases count - i,
    {
        let len: usize = data.len();
        assert(4 * i + 3 < len) by (nonlinear_arith)
            requires
                i < count,
                count == len / 4,
        ;
        let g = GestureDataset {
            up: data[4 * i],
            down: data[4 * i + 1],
            left: data[4 * i + 2],
            right: data[4 * i + 3],
        };
        r.push(g);
        i = i + 1;
    }
    r
}

/// Whether the datasets read from the FIFO contain a gesture, i.e. a dataset that is not
/// noise. No data means no gesture.
pub fn any_gesture_detected(data: &[u8]) -> (r: bool)
    ensures
        r == has_gesture(data@),
{
    let datasets = decode_gesture_datasets(data);
    let count: usize = datasets.len();
    let mut i: usize = 0;
    while i < count
        invariant
            count == datasets@.len(),
            count == data@.len() / 4,
            i <= count,
            forall|j: int| 0 <= j < datasets@.len() ==> #[trigger] datasets@[j] == dataset_at(data@, j),
            forall|j: int| 0 <= j < i ==> noise(#[trigger] dataset_at(data@, j)),
        decreases count - i,
    {
        assert(datasets@[i as int] == dataset_at(data@, i as int));
        if datasets[i].is_any() {
            return true;
        }
        i = i + 1;
    }
    false
}

/// A dataset is a gesture exactly when it is not noise.
pub proof fn lemma_any_is_not_noise(g: GestureDataset)
    ensures
        !noise(g) <==> (g.up > GESTURE_THRESHOLD || g.down > GESTURE_THRESHOLD || g.left
            > GESTURE_THRESHOLD || g.right > GESTURE_THRESHOLD),
{
}

/// Appending datasets never hides a gesture already read.
pub proof fn lemma_gesture_persists(data: Seq<u8>, more: Seq<u8>)
    requires
        data.len() % 4 == 0,
        has_gesture(data),
    ensures
        has_gesture(data + more),
{
    let i: int = choose|i: int| 0 <= i < data.len() / 4 && !noise(#[trigger] dataset_at(data, i));
    assert(dataset_at(data + more, i) == dataset_at(data, i));
    assert((data + more).len() / 4 >= data.len() / 4);
}

/// Four bytes make one dataset, read in the order up, down, left, right.
pub proof fn lemma_single_dataset(up: u8, down: u8, left: u8, right: u8)
    ensures
        dataset_at(seq![up, down, left, right], 0) == (GestureDataset { up, down, left, right }),
        has_gesture(seq![up, down, left, right]) <==> (up > GESTURE_THRESHOLD || down
            > GESTURE_THRESHOLD || left > GESTURE_THRESHOLD || right > GESTURE_THRESHOLD),
{
    let d = seq![up, down, left, right];
    assert(d.len() / 4 == 1);
    if has_gesture(d) {
        let i: int = choose|i: int| 0 <= i < d.len() / 4 && !noise(#[trigger] dataset_at(d, i));
        assert(i == 0);
    }
    if up > GESTURE_THRESHOLD || down > GESTURE_THRESHOLD || left > GESTURE_THRESHOLD || right
        > GESTURE_THRESHOLD {
        assert(!noise(dataset_at(d, 0)));
    }
}

/// The datasets of two pieces of FIFO data read one after the other, the first made of whole
/// datasets, are those of the first piece followed by those of the second.
pub proof fn lemma_datasets_concat(a: Seq<u8>, b: Seq<u8>, i: int)
    requires
        a.len() % 4 == 0,
        0 <= i,
    ensures
        (a + b).len() / 4 == a.len() / 4 + b.len() / 4,
        i < a.len() / 4 ==> dataset_at(a + b, i) == dataset_at(a, i),
        a.len() / 4 <= i < (a + b).len() / 4 ==> dataset_at(a + b, i) == dataset_at(
            b,
            i - a.len() / 4,
        ),
{
    let la = a.len() as int;
    let lb = b.len() as int;
    let k = la / 4;
    assert(la == 4 * k) by (nonlinear_arith)
        requires
            la % 4 == 0,
            k == la / 4,
            la >= 0,
    ;
    assert((la + lb) / 4 == k + lb / 4) by (nonlinear_arith)
        requires
            la == 4 * k,
            lb >= 0,
    ;
    if i < k {
        assert(4 * i + 3 < la) by (nonlinear_arith)
            requires
                i < k,
                la == 4 * k,
        ;
    } else if i < k + lb / 4 {
        let j = i - k;
        assert(4 * j + 3 < lb) by (nonlinear_arith)
            requires
                j >= 0,
                i < k + lb / 4,
                j == i - k,
                lb >= 0,
        ;
        assert(4 * i == la + 4 * j);
    }
}

/// Data made of whole datasets holds a gesture exactly when one of its two pieces does.
pub proof fn lemma_gesture_in_either_piece(a: Seq<u8>, b: Seq<u8>)
    requires
        a.len() % 4 == 0,
    ensures
        has_gesture(a + b) <==> has_gesture(a) || has_gesture(b),
{
    lemma_datasets_concat(a, b, 0);
    let k = a.len() / 4;
    if has_gesture(a + b) {
        let i: int = choose|i: int|
            0 <= i < (a + b).len() / 4 && !noise(#[trigger] dataset_at(a + b, i));
        lemma_datasets_concat(a, b, i);
        if i < k {
            assert(!noise(dataset_at(a, i)));
        } else {
            assert(!noise(dataset_at(b, i - k)));
        }
    }
    if has_gesture(a) {
        let i: int = choose|i: int| 0 <= i < a.len() / 4 && !noise(#[trigger] dataset_at(a, i));
        lemma_datasets_concat(a, b, i);
        assert(!noise(dataset_at(a + b, i)));
    }
    if has_gesture(b) {
        let j: int = choose|j: int| 0 <= j < b.len() / 4 && !noise(#[trigger] dataset_at(b, j));
        lemma_datasets_concat(a, b, k + j);
        assert(!noise(dataset_at(a + b, k + j)));
    }
}

} // verus!
