use lerp::iter::{LerpIter, LerpIterator, Step};

fn points(it: &mut LerpIterator<f64>) -> Vec<f64> {
    let mut out = Vec::new();
    while let Some(step) = it.next_step() {
        let v = match step {
            Step::Fraction { numerator, denominator } => {
                let t = numerator as f64 / denominator as f64;
                it.begin() * (1.0 - t) + it.end() * t
            }
            Step::End => *it.end(),
        };
        out.push(v);
    }
    out
}

#[test]
fn half_open_schedule() {
    let mut it = 3.0_f64.lerp_iter(5.0, 4);
    assert_eq!(it.size_hint(), (4, Some(4)));
    assert_eq!(points(&mut it), vec![3.0, 3.5, 4.0, 4.5]);
    assert_eq!(it.size_hint(), (0, Some(0)));
    assert_eq!(it.next_step(), None);
}

#[test]
fn half_open_steps() {
    let mut it = LerpIterator::new(0u8, 1u8, 2);
    assert_eq!(it.next_step(), Some(Step::Fraction { numerator: 0, denominator: 2 }));
    assert_eq!(it.size_hint(), (1, Some(1)));
    assert_eq!(it.next_step(), Some(Step::Fraction { numerator: 1, denominator: 2 }));
    assert_eq!(it.next_step(), None);
}

#[test]
fn empty_schedule() {
    let mut it = LerpIterator::new(1.0_f64, 2.0, 0);
    assert_eq!(it.size_hint(), (0, Some(0)));
    assert_eq!(it.next_step(), None);
}

#[test]
fn closed_schedule() {
    let mut it = 3.0_f64.lerp_iter_closed(5.0, 2);
    assert_eq!(it.size_hint(), (2, Some(2)));
    assert_eq!(points(&mut it), vec![3.0, 5.0]);
    let mut five = 0.0_f64.lerp_iter_closed(1.0, 5);
    assert_eq!(points(&mut five), vec![0.0, 0.25, 0.5, 0.75, 1.0]);
}

#[test]
fn closed_schedule_edges() {
    let mut none = LerpIterator::new_closed(3.0_f64, 5.0, 0);
    assert_eq!(none.size_hint(), (0, Some(0)));
    assert_eq!(none.next_step(), None);
    let mut one = LerpIterator::new_closed(3.0_f64, 5.0, 1);
    assert_eq!(one.size_hint(), (1, Some(1)));
    assert_eq!(one.next_step(), Some(Step::End));
    assert_eq!(one.next_step(), None);
    let big = LerpIterator::new_closed(0u8, 1u8, usize::MAX);
    assert_eq!(big.size_hint(), (usize::MAX, Some(usize::MAX)));
}
