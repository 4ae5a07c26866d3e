use drop_agent::pixels::{bgra_to_rgba, crop, mostly_black};

fn picture(total: usize, lit: usize) -> Vec<u8> {
    let mut pixels = vec![0u8; 4 * total];
    for k in 0..total {
        pixels[4 * k + 3] = 255;
        if k < lit {
            pixels[4 * k + k % 3] = 1;
        }
    }
    pixels
}

#[test]
fn black_pictures() {
    assert!(mostly_black(&picture(100, 0)));
    assert!(!mostly_black(&picture(100, 1)));
    assert!(mostly_black(&picture(101, 1)));
    assert!(!mostly_black(&picture(1, 1)));
    assert!(mostly_black(&picture(1, 0)));
    assert!(!mostly_black(&vec![]));
}

#[test]
fn agrees_with_percentages() {
    for total in 1usize..500 {
        for lit in 0..=total.min(8) {
            let percentage = 100.0 - (lit as f64 / total as f64 * 100.0);
            assert_eq!(mostly_black(&picture(total, lit)), percentage > 99.0, "{} {}", lit, total);
        }
    }
}

#[test]
fn one_percent_is_the_limit() {
    for hundreds in vec![1usize, 3, 7, 29, 57, 333, 20_736] {
        let total = 100 * hundreds;
        for lit in vec![hundreds - 1, hundreds, hundreds + 1] {
            let percentage = 100.0 - (lit as f64 / total as f64 * 100.0);
            assert_eq!(mostly_black(&picture(total, lit)), percentage > 99.0, "{} {}", lit, total);
        }
    }
}

#[test]
fn alpha_is_no_colour() {
    assert!(mostly_black(&vec![0, 0, 0, 255]));
    assert!(!mostly_black(&vec![0, 0, 1, 0]));
    assert!(!mostly_black(&vec![0, 1, 0, 0]));
    assert!(!mostly_black(&vec![1, 0, 0, 0]));
}

#[test]
fn colours_are_put_in_order() {
    assert_eq!(bgra_to_rgba(vec![1, 2, 3, 4, 5, 6, 7, 8]), vec![3, 2, 1, 4, 7, 6, 5, 8]);
    assert_eq!(bgra_to_rgba(vec![]), Vec::<u8>::new());
    let pixels: Vec<u8> = (0..64).collect();
    assert_eq!(bgra_to_rgba(bgra_to_rgba(pixels.clone())), pixels);
}

#[test]
fn order_does_not_matter_to_black() {
    let pixels = picture(150, 1);
    assert_eq!(mostly_black(&pixels), mostly_black(&bgra_to_rgba(pixels.clone())));
}

#[test]
fn region_is_cut_out() {
    // Four by three pixels, each of them four times its number.
    let pixels: Vec<u8> = (0..12).flat_map(|k| vec![k; 4]).collect();
    let cut = crop(&pixels, 4, (1, 1), (2, 2), 3);
    let expected: Vec<u8> = vec![5, 6, 9, 10].into_iter().flat_map(|k| vec![k; 4]).collect();
    assert_eq!(cut, expected);
    assert_eq!(crop(&pixels, 4, (0, 0), (4, 3), 3), pixels);
    assert_eq!(crop(&pixels, 4, (3, 2), (1, 1), 3), vec![11; 4]);
}
