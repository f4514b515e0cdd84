use corpusflow::index::CorpusGrainEntry;
use corpusflow::matching::{check_corpus_not_empty, seek_ratio, SeekRatio};

fn distance(ratio: SeekRatio) -> f32 {
    ratio.numerator as f32 / ratio.denominator as f32
}

#[test]
fn normalized_seek_distance_is_zero_for_adjacent_grains_in_same_source() {
    let previous = CorpusGrainEntry {
        source_index: 0,
        start_frame: 100,
        len_frames: 50,
    };
    let candidate = CorpusGrainEntry {
        source_index: 0,
        start_frame: 150,
        len_frames: 50,
    };

    assert_eq!(distance(seek_ratio(previous, &candidate)), 0.0);
}

#[test]
fn normalized_seek_distance_penalizes_large_jump_and_source_switch() {
    let previous = CorpusGrainEntry {
        source_index: 0,
        start_frame: 100,
        len_frames: 50,
    };
    let distant_same_source = CorpusGrainEntry {
        source_index: 0,
        start_frame: 250,
        len_frames: 50,
    };
    let switched_source = CorpusGrainEntry {
        source_index: 1,
        start_frame: 0,
        len_frames: 50,
    };

    assert_eq!(distance(seek_ratio(previous, &distant_same_source)), 2.0);
    assert_eq!(distance(seek_ratio(previous, &switched_source)), 1.0);
}

#[test]
fn backward_seek_and_zero_length_grain() {
    let previous = CorpusGrainEntry {
        source_index: 2,
        start_frame: 100,
        len_frames: 0,
    };
    let earlier = CorpusGrainEntry {
        source_index: 2,
        start_frame: 40,
        len_frames: 10,
    };
    assert_eq!(
        seek_ratio(previous, &earlier),
        SeekRatio {
            numerator: 60,
            denominator: 1,
        }
    );
}

#[test]
fn matching_requires_grains() {
    assert_eq!(
        check_corpus_not_empty(0),
        Err("matching requires a non-empty corpus index".to_string())
    );
    assert_eq!(check_corpus_not_empty(1), Ok(()));
}
