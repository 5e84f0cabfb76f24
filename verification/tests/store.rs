use candle_core::{Device, Tensor};
use embeddy::foreign::DenseTensor;
use embeddy::matrix::{check_token_ids, matrix_rows, pool_rows, EmbeddingMatrix};
use embeddy::store::{check_declared_length, descriptor_names, TensorStore};
use embeddy::Error;

fn container(entries: &[(&str, &[usize], Vec<f32>)]) -> Vec<u8> {
    let mut header = String::from("{");
    let mut data: Vec<u8> = Vec::new();
    for (i, (name, shape, values)) in entries.iter().enumerate() {
        let start = data.len();
        for v in values {
            data.extend_from_slice(&v.to_le_bytes());
        }
        if i > 0 {
            header.push(',');
        }
        let dims: Vec<String> = shape.iter().map(|d| d.to_string()).collect();
        header.push_str(&format!(
            "\"{}\":{{\"dtype\":\"F32\",\"shape\":[{}],\"data_offsets\":[{},{}]}}",
            name,
            dims.join(","),
            start,
            data.len()
        ));
    }
    header.push('}');
    let mut bytes = (header.len() as u64).to_le_bytes().to_vec();
    bytes.extend_from_slice(header.as_bytes());
    bytes.extend_from_slice(&data);
    bytes
}

fn two_tensors() -> Vec<u8> {
    container(&[("a", &[2], vec![1.0, 2.0]), ("b", &[1], vec![3.0])])
}

fn tensor(rows: usize, cols: usize, values: &[f32]) -> DenseTensor {
    DenseTensor { inner: Tensor::from_slice(values, (rows, cols), &Device::Cpu).unwrap() }
}

fn detail(e: Error) -> String {
    match e {
        Error::ModelLoadFailed(msg) => format!("load: {}", msg),
        Error::EmbeddingError(msg) => format!("embedding: {}", msg),
        other => panic!("unexpected: {:?}", other),
    }
}

#[test]
fn store_lists_each_tensor_once() {
    let bytes = two_tensors();
    let store = TensorStore::open(&bytes).unwrap();
    let mut names = store.tensor_names();
    names.sort();
    assert_eq!(names, vec!["a".to_string(), "b".to_string()]);
}

#[test]
fn store_describes_each_tensor_by_its_header() {
    let bytes = container(&[("m", &[2, 3], vec![0.0; 6]), ("v", &[1], vec![3.0])]);
    let store = TensorStore::open(&bytes).unwrap();
    let mut listing = store.descriptors();
    listing.sort_by(|a, b| a.name.partial_cmp(&b.name).unwrap());
    assert_eq!(listing.len(), 2);
    assert_eq!(listing[0].name, "m");
    assert_eq!(listing[0].shape, vec![2, 3]);
    assert_eq!(listing[0].dtype, "F32");
    assert_eq!(listing[1].name, "v");
    assert_eq!(listing[1].shape, vec![1]);
    let names = descriptor_names(&listing);
    assert_eq!(names, vec!["m".to_string(), "v".to_string()]);
}

#[test]
fn stored_values_are_read_back_bit_for_bit() {
    let bytes = two_tensors();
    let store = TensorStore::open(&bytes).unwrap();
    let a = store.load("a", &Device::Cpu).unwrap().inner.to_vec1::<f32>().unwrap();
    let b = store.load("b", &Device::Cpu).unwrap().inner.to_vec1::<f32>().unwrap();
    let bits = |v: &[f32]| v.iter().map(|x| x.to_bits()).collect::<Vec<u32>>();
    assert_eq!(bits(&a), bits(&[1.0, 2.0]));
    assert_eq!(bits(&b), bits(&[3.0]));
}

#[test]
fn special_values_are_read_back_bit_for_bit() {
    let odd = vec![f32::from_bits(0x7fc0_0001), -0.0, f32::MIN_POSITIVE / 2.0, f32::INFINITY];
    let bytes = container(&[("odd", &[4], odd.clone())]);
    let store = TensorStore::open(&bytes).unwrap();
    let back = store.load("odd", &Device::Cpu).unwrap().inner.to_vec1::<f32>().unwrap();
    let bits = |v: &[f32]| v.iter().map(|x| x.to_bits()).collect::<Vec<u32>>();
    assert_eq!(bits(&back), bits(&odd));
}

#[test]
fn store_refuses_a_name_it_does_not_hold() {
    let bytes = two_tensors();
    let store = TensorStore::open(&bytes).unwrap();
    match store.load("c", &Device::Cpu) {
        Err(Error::ModelLoadFailed(msg)) => {
            assert!(msg.starts_with("Failed to load embedding tensor: "))
        }
        Ok(_) => panic!("a tensor was decoded under a name the store does not hold"),
        Err(other) => panic!("unexpected: {:?}", other),
    }
}

#[test]
fn store_refuses_a_malformed_container() {
    for bytes in [&b""[..], &b"short"[..], &[0xffu8; 16][..], &b"\x02\0\0\0\0\0\0\0{]"[..]] {
        match TensorStore::open(bytes) {
            Err(Error::ModelLoadFailed(msg)) => {
                assert!(msg.starts_with("Failed to load safetensors: "))
            }
            Ok(_) => panic!("a malformed container was opened"),
            Err(other) => panic!("unexpected: {:?}", other),
        }
    }
}

#[test]
fn store_refuses_a_container_whose_data_is_cut_short() {
    let mut bytes = two_tensors();
    bytes.pop();
    assert!(matches!(TensorStore::open(&bytes), Err(Error::ModelLoadFailed(_))));
}

#[test]
fn empty_container_holds_no_tensor() {
    let bytes = container(&[]);
    let store = TensorStore::open(&bytes).unwrap();
    assert!(store.tensor_names().is_empty());
}

#[test]
fn matrix_rows_reads_the_row_count() {
    assert_eq!(matrix_rows(&vec![30522, 384], 384).unwrap(), 30522);
    assert_eq!(matrix_rows(&vec![0, 384], 384).unwrap(), 0);
    for dims in [vec![], vec![384], vec![384, 30522], vec![2, 3, 384], vec![30522, 383]] {
        match matrix_rows(&dims, 384) {
            Err(Error::ModelLoadFailed(msg)) => {
                assert_eq!(msg, "Embedding tensor does not have the configured shape")
            }
            other => panic!("unexpected for {:?}: {:?}", dims, other),
        }
    }
}

#[test]
fn token_ids_are_checked_against_the_vocabulary() {
    assert!(check_token_ids(&[0, 1, 3], 4).is_ok());
    assert!(check_token_ids(&[3], 4).is_ok());
    assert_eq!(detail(check_token_ids(&[], 4).unwrap_err()), "embedding: Text produced no tokens");
    assert_eq!(detail(check_token_ids(&[], 0).unwrap_err()), "embedding: Text produced no tokens");
    assert_eq!(
        detail(check_token_ids(&[0, 4], 4).unwrap_err()),
        "embedding: Token id outside the vocabulary"
    );
    assert_eq!(
        detail(check_token_ids(&[0], 0).unwrap_err()),
        "embedding: Token id outside the vocabulary"
    );
    assert_eq!(
        detail(check_token_ids(&[u32::MAX, 0], 4).unwrap_err()),
        "embedding: Token id outside the vocabulary"
    );
}

#[test]
fn matrix_is_made_only_of_a_tensor_of_the_right_width() {
    let m = EmbeddingMatrix::new(tensor(4, 2, &[1.0, 0.0, 0.0, 1.0, 2.0, 2.0, 1.0, 1.0]), 2).unwrap();
    assert_eq!(m.rows(), 4);
    assert_eq!(m.cols(), 2);
    match EmbeddingMatrix::new(tensor(4, 2, &[0.0; 8]), 4) {
        Err(e) => assert_eq!(detail(e), "load: Embedding tensor does not have the configured shape"),
        Ok(_) => panic!("a matrix of width 2 was taken for one of width 4"),
    }
    let flat = DenseTensor { inner: Tensor::from_slice(&[0.0f32; 8], 8, &Device::Cpu).unwrap() };
    assert!(EmbeddingMatrix::new(flat, 8).is_err());
}

#[test]
fn gather_copies_rows_in_the_order_of_the_ids() {
    let m = EmbeddingMatrix::new(tensor(4, 2, &[1.0, 0.0, 0.0, 1.0, 2.0, 2.0, 1.0, 1.0]), 2).unwrap();
    let rows = m.gather(&[3, 3, 0], &Device::Cpu).unwrap();
    assert_eq!(rows.inner.dims(), &[3, 2]);
    assert_eq!(
        rows.inner.to_vec2::<f32>().unwrap(),
        vec![vec![1.0, 1.0], vec![1.0, 1.0], vec![1.0, 0.0]]
    );
    assert_eq!(detail(m.gather(&[], &Device::Cpu).unwrap_err()), "embedding: Text produced no tokens");
    assert_eq!(
        detail(m.gather(&[4], &Device::Cpu).unwrap_err()),
        "embedding: Token id outside the vocabulary"
    );
}

#[test]
fn pooling_takes_the_mean_of_each_column() {
    let rows = tensor(3, 2, &[1.0, 0.0, 0.0, 1.0, 2.0, 2.0]);
    let pooled = pool_rows(&rows, 2).unwrap();
    assert_eq!(pooled.inner.dims(), &[2]);
    assert_eq!(pooled.inner.to_vec1::<f32>().unwrap(), vec![1.0, 1.0]);
    let one = tensor(1, 3, &[0.5, -4.0, 8.0]);
    assert_eq!(pool_rows(&one, 3).unwrap().inner.to_vec1::<f32>().unwrap(), vec![0.5, -4.0, 8.0]);
}

#[test]
fn pooling_refuses_rows_of_another_shape() {
    let rows = tensor(3, 2, &[1.0, 0.0, 0.0, 1.0, 2.0, 2.0]);
    assert_eq!(
        detail(pool_rows(&rows, 3).unwrap_err()),
        "embedding: Embedding has an unexpected shape"
    );
    let none = DenseTensor { inner: Tensor::zeros((0, 2), candle_core::DType::F32, &Device::Cpu).unwrap() };
    assert_eq!(
        detail(pool_rows(&none, 2).unwrap_err()),
        "embedding: Embedding has an unexpected shape"
    );
    let flat = DenseTensor { inner: Tensor::from_slice(&[1.0f32, 2.0], 2, &Device::Cpu).unwrap() };
    assert!(pool_rows(&flat, 2).is_err());
}

#[test]
fn container_written_by_the_serializer_is_read_back_bit_for_bit() {
    let a = Tensor::new(&[1.0f32, 2.0], &Device::Cpu).unwrap();
    let b = Tensor::new(&[3.0f32], &Device::Cpu).unwrap();
    let bytes = safetensors::serialize(vec![("a", &a), ("b", &b)], None).unwrap();
    let store = TensorStore::open(&bytes).unwrap();
    let mut names = store.tensor_names();
    names.sort();
    assert_eq!(names, vec!["a".to_string(), "b".to_string()]);
    let bits = |v: &[f32]| v.iter().map(|x| x.to_bits()).collect::<Vec<u32>>();
    let back_a = store.load("a", &Device::Cpu).unwrap().inner.to_vec1::<f32>().unwrap();
    let back_b = store.load("b", &Device::Cpu).unwrap().inner.to_vec1::<f32>().unwrap();
    assert_eq!(bits(&back_a), bits(&[1.0, 2.0]));
    assert_eq!(bits(&back_b), bits(&[3.0]));
}

#[test]
fn matrix_written_by_the_serializer_is_gathered_from() {
    let table = Tensor::new(&[[1.0f32, 0.0], [0.0, 1.0], [2.0, 2.0], [1.0, 1.0]], &Device::Cpu).unwrap();
    let bytes = safetensors::serialize(vec![("model.embed_tokens.weight", &table)], None).unwrap();
    let store = TensorStore::open(&bytes).unwrap();
    let loaded = store.load("model.embed_tokens.weight", &Device::Cpu).unwrap();
    let matrix = EmbeddingMatrix::new(loaded, 2).unwrap();
    let rows = matrix.gather(&[0, 1, 2], &Device::Cpu).unwrap();
    assert_eq!(pool_rows(&rows, 2).unwrap().inner.to_vec1::<f32>().unwrap(), vec![1.0, 1.0]);
}

fn raw(header: &str, data: &[u8]) -> Vec<u8> {
    let mut bytes = (header.len() as u64).to_le_bytes().to_vec();
    bytes.extend_from_slice(header.as_bytes());
    bytes.extend_from_slice(data);
    bytes
}

#[test]
fn buffer_is_checked_against_the_length_it_declares() {
    assert!(check_declared_length(&two_tensors()).is_ok());
    assert!(check_declared_length(&container(&[])).is_ok());
    assert!(check_declared_length(b"").is_err());
    assert!(check_declared_length(b"1234567").is_err());
    assert!(check_declared_length(&[0xffu8; 16]).is_err());
    let mut long = two_tensors();
    long.push(0);
    assert!(check_declared_length(&long).is_err());
    let mut short = two_tensors();
    short.pop();
    assert!(check_declared_length(&short).is_err());
    let header = "{\"a\":{\"dtype\":\"U8\",\"shape\":[4],\"data_offsets\":[0,4]}}";
    assert!(check_declared_length(&raw(header, &[1, 2, 3, 4])).is_ok());
    assert!(check_declared_length(&raw(header, &[1, 2, 3])).is_err());
    assert!(check_declared_length(&raw("{\"a\": 3}", &[])).is_err());
}

#[test]
fn length_field_is_read_lowest_byte_first() {
    let header = "{\"a\":{\"dtype\":\"U8\",\"shape\":[1],\"data_offsets\":[0,1]}}";
    let padded = format!("{}{}", header, " ".repeat(300 - header.len()));
    let bytes = raw(&padded, &[9]);
    assert_eq!(&bytes[..8], &[44, 1, 0, 0, 0, 0, 0, 0]);
    assert!(check_declared_length(&bytes).is_ok());
    let store = TensorStore::open(&bytes).unwrap();
    assert_eq!(store.tensor_names(), vec!["a".to_string()]);
}

#[test]
fn header_whose_lengths_add_up_past_the_largest_number_is_refused() {
    let step: u128 = 1 << 60;
    let mut header = String::from("{");
    for k in 0..16u128 {
        let start = k * step;
        let end = if k == 15 { (k + 1) * step - 1 } else { (k + 1) * step };
        if k > 0 {
            header.push(',');
        }
        header.push_str(&format!(
            "\"t{:02}\":{{\"dtype\":\"U8\",\"shape\":[{}],\"data_offsets\":[{},{}]}}",
            k,
            end - start,
            start,
            end
        ));
    }
    header.push('}');
    let bytes = raw(&header, &[]);
    assert!(check_declared_length(&bytes).is_err());
    match TensorStore::open(&bytes) {
        Err(Error::ModelLoadFailed(msg)) => {
            assert!(msg.starts_with("Failed to load safetensors: "))
        }
        Ok(_) => panic!("a container without its data was opened"),
        Err(other) => panic!("unexpected: {:?}", other),
    }
}
