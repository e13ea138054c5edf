use neuralnet_rs::batching::{chunk_indices, shuffled_indices};

#[test]
fn shuffled_indices_are_a_permutation() {
    let v = shuffled_indices(1000);
    let mut sorted = v.clone();
    sorted.sort();
    assert_eq!(sorted, (0..1000).collect::<Vec<usize>>());
    assert_ne!(v, (0..1000).collect::<Vec<usize>>());
}

#[test]
fn shuffled_indices_of_nothing() {
    assert_eq!(shuffled_indices(0), Vec::<usize>::new());
    assert_eq!(shuffled_indices(1), vec![0]);
}

#[test]
fn chunks_cover_the_epoch() {
    let idx: Vec<usize> = vec![9, 3, 7, 1, 0, 4, 2];
    let c = chunk_indices(&idx, 3);
    assert_eq!(c, vec![vec![9, 3, 7], vec![1, 0, 4], vec![2]]);
    assert_eq!(c.concat(), idx);
    assert_eq!(chunk_indices(&idx, 7), vec![idx.clone()]);
    assert_eq!(chunk_indices(&idx, 100), vec![idx.clone()]);
    assert_eq!(chunk_indices(&Vec::new(), 4), Vec::<Vec<usize>>::new());
}

#[test]
fn mnist_epoch_batches() {
    let c = chunk_indices(&shuffled_indices(60000), 64);
    assert_eq!(c.len(), 938);
    assert!(c[..937].iter().all(|b| b.len() == 64));
    assert_eq!(c[937].len(), 60000 - 937 * 64);
}
