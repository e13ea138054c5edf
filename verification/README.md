# neuralnet_rs

A small dense feed-forward neural network trained with mini-batch gradient
descent, with MessagePack and ONNX export.

`src/` is the verified library (Verus). It holds what the network is made of
and how it is organised, everything that does not compute on floating-point
numbers:

- `activation`, `loss`: the activation functions and loss functions, which
  initialisation scheme each activation takes, which ONNX operator computes it,
  which activations have an element-wise derivative, and how the output error
  is formed for each pairing of loss and output activation;
- `architecture`: the checked construction of a network's layer shapes, with
  the laws that layers chain, that back-propagation only takes derivatives that
  exist, and that the forward-pass buffers fit the layers;
- `onnx`, `names`: the layout of the exported ONNX graph (tensor names,
  initializer shapes, node wiring), with the laws that the nodes form a chain,
  that all tensor names are distinct and that the shapes agree;
- `idx`: parsing of the MNIST IDX image and label files;
- `batching`: the shuffled sample order of an epoch and its cut into
  mini-batches.

`app/` holds the numeric part (ndarray matrices, the forward and backward
passes, weight sampling), file I/O, MessagePack storage and the ONNX protobuf
encoding, and the MNIST training program.
